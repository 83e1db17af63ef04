//! The game as a dialogue in text: questions, answers and news of the cave.

pub mod text;
pub mod instructions;
pub mod textgame;
