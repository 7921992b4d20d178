use vstd::prelude::*;

verus! {

/// How many frames an explosion's sprite sheet holds.
pub const EXPLOSION_LEN: usize = 16;

/// One tick of an explosion showing frame `index`: when its frame timer has
/// `finished`, it moves on to the next frame, and once that is past the last
/// frame the explosion is over. Returns the frame to show and whether the
/// explosion is over.
pub fn explosion_step(index: usize, finished: bool) -> (r: (usize, bool))
    requires
        index < usize::MAX,
    ensures
        finished ==> r.0 == index + 1 && r.1 == (index + 1 >= EXPLOSION_LEN),
        !finished ==> r == (index, false),
{
    if finished {
        let next = index + 1;
        (next, next >= EXPLOSION_LEN)
    } else {
        (index, false)
    }
}

} // verus!
