//! The game itself: the cave, who is in it, and what each action does.

pub mod constants;
pub mod actor;
pub mod game;
pub mod laws;
