use vstd::prelude::*;

verus! {

/// Whether the player is alive, and when it was last shot down.
/// Times are milliseconds since the game started.
pub struct PlayerState {
    /// The player is alive.
    pub on: bool,
    /// When the player was last shot down; `None` since it last spawned.
    pub last_shot: Option<u64>,
}

impl PlayerState {
    /// The player was shot down at `time`.
    pub fn shot(&mut self, time: u64)
        ensures
            final(self).on == false,
            final(self).last_shot == Some(time),
    {
        self.on = false;
        self.last_shot = Some(time);
    }

    /// The player has (re)appeared.
    pub fn spawned(&mut self)
        ensures
            final(self).on == true,
            final(self).last_shot is None,
    {
        self.on = true;
        self.last_shot = None;
    }
}

impl Default for PlayerState {
    /// Not yet spawned, never shot.
    fn default() -> (s: Self)
        ensures
            s.on == false,
            s.last_shot is None,
    {
        PlayerState { on: false, last_shot: None }
    }
}

} // verus!
