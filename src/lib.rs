//! Rules and game state of Xiangqi, with the decision logic of a client for
//! an external move-search process speaking a line-based text protocol.
pub mod piece;
pub mod board;
pub mod rules;
pub mod state;
pub mod codec;
pub mod text;
pub mod engine;
pub mod mode;
pub mod laws;
