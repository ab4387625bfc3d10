//! Why a submission or a query fails.

use vstd::prelude::*;

verus! {

/// The reasons an operation of the leaderboard is refused.
#[derive(Clone, Copy, Debug, PartialEq, Eq, Structural)]
pub enum ContractErrors {
    /// More was earned per click than the game allows.
    CheatDetectedInvalidRatio,
    /// Too little play time for the amount earned.
    CheatDetectedImpossiblePlayTime,
    /// No score is recorded for the player.
    PlayerNotFound,
}

impl ContractErrors {
    /// The numeric code that identifies the error to callers of the contract.
    pub fn code(&self) -> (r: u16)
        ensures
            r == match *self {
                ContractErrors::CheatDetectedInvalidRatio => 1u16,
                ContractErrors::CheatDetectedImpossiblePlayTime => 2u16,
                ContractErrors::PlayerNotFound => 3u16,
            },
    {
        match self {
            ContractErrors::CheatDetectedInvalidRatio => 1,
            ContractErrors::CheatDetectedImpossiblePlayTime => 2,
            ContractErrors::PlayerNotFound => 3,
        }
    }
}

} // verus!
