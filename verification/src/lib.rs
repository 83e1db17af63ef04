//! Hunt the Wumpus: the cave, the hazards and the text dialogue of the
//! 1979 Creative Computing game, with their rules proved by Verus.

pub mod actor;
pub mod console_game;
pub mod game;
pub mod ioadapter;
pub mod random;
pub mod textgame;
