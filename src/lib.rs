//! Gameplay rules of a small arcade shooter, kept apart from the engine that
//! draws and schedules them: formation templates, the enemy budget, which
//! laser destroys which enemy, and the state of the player and of explosions.

pub mod combat;
pub mod enemy;
pub mod explosion;
pub mod formation;
pub mod player;
