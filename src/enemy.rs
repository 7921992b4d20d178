use vstd::prelude::*;

use crate::formation::FormationMaker;

verus! {

/// The most enemies alive at once.
pub const ENEMY_MAX: u32 = 4;

/// How many enemies are alive.
pub struct EnemyCount(pub u32);

impl EnemyCount {
    /// No enemy yet.
    pub fn new() -> (c: Self)
        ensures
            c.0 == 0,
    {
        EnemyCount(0)
    }

    /// Whether the budget admits one more enemy.
    pub open spec fn has_room(&self) -> bool {
        self.0 < ENEMY_MAX
    }

    /// `n` enemies were destroyed.
    pub fn remove(&mut self, n: u32)
        requires
            old(self).0 >= n,
        ensures
            final(self).0 == old(self).0 - n,
    {
        self.0 = self.0 - n;
    }
}

/// One tick of the spawner: while fewer than `ENEMY_MAX` enemies are alive,
/// one more is admitted and its formation taken from `maker`; otherwise
/// nothing changes and nothing is spawned.
pub fn enemy_spawn<T: Copy, F: FnOnce() -> T>(
    count: &mut EnemyCount,
    maker: &mut FormationMaker<T>,
    fresh: F,
) -> (r: Option<T>)
    requires
        fresh.requires(()),
    ensures
        old(count).has_room() ==> {
            &&& r is Some
            &&& final(count).0 == old(count).0 + 1
            &&& old(maker).make_outcome(fresh, *final(maker), r->Some_0)
        },
        !old(count).has_room() ==> {
            &&& r is None
            &&& final(count).0 == old(count).0
            &&& *final(maker) == *old(maker)
        },
{
    if count.0 < ENEMY_MAX {
        let formation = maker.make(fresh);
        count.0 = count.0 + 1;
        Some(formation)
    } else {
        None
    }
}

} // verus!
