//! Attack scoring model and lookahead placement search for a falling-block
//! puzzle game, together with the board measurements that the surrounding
//! statistics layer reads (stack height, garbage height, well position,
//! cheese detection).

pub mod attack;
pub mod board_analyzer;
pub mod piece;
pub mod replay_response;
pub mod solver;
