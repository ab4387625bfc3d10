//! An on-chain style leaderboard: score submissions pass two anti-cheat
//! checks and the latest accepted score is kept per player identity.

pub mod address;
pub mod anti_cheat;
pub mod clicker;
pub mod deploy;
pub mod errors;
pub mod laws;
pub mod leaderboard;
pub mod score;
