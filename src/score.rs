//! The record kept for each player, and the notification sent for each
//! accepted submission.

use vstd::prelude::*;

use crate::address::Address;

verus! {

/// The latest accepted score of one player.
#[derive(Clone, Debug, PartialEq, Eq)]
pub struct PlayerScore {
    /// Display name, as submitted; never validated.
    pub player_name: String,
    /// The identity that submitted the score.
    pub wallet_address: Address,
    /// Cumulative amount earned.
    pub total_earned: u64,
    /// Cumulative number of clicks.
    pub total_clicks: u64,
    /// Elapsed play time, in seconds.
    pub play_time: u64,
    /// Submission time, as given by the submitter.
    pub timestamp: u64,
}

/// The notification emitted when a score is accepted.
#[derive(Clone, Debug, PartialEq, Eq)]
pub struct ScoreSubmitted {
    /// Display name, as submitted.
    pub player_name: String,
    /// The identity that submitted the score.
    pub wallet_address: Address,
    /// Cumulative amount earned.
    pub total_earned: u64,
    /// Cumulative number of clicks.
    pub total_clicks: u64,
    /// Elapsed play time, in seconds.
    pub play_time: u64,
    /// Submission time, as given by the submitter.
    pub timestamp: u64,
}

impl PlayerScore {
    /// An exact copy of the record.
    pub fn duplicate(&self) -> (r: PlayerScore)
        ensures
            r == *self,
    {
        PlayerScore {
            player_name: self.player_name.clone(),
            wallet_address: self.wallet_address,
            total_earned: self.total_earned,
            total_clicks: self.total_clicks,
            play_time: self.play_time,
            timestamp: self.timestamp,
        }
    }

    /// The notification spec for an accepted record: the same fields.
    pub open spec fn spec_notification(self) -> ScoreSubmitted {
        ScoreSubmitted {
            player_name: self.player_name,
            wallet_address: self.wallet_address,
            total_earned: self.total_earned,
            total_clicks: self.total_clicks,
            play_time: self.play_time,
            timestamp: self.timestamp,
        }
    }

    /// The notification that announces this record: it carries the same fields.
    pub fn notification(&self) -> (r: ScoreSubmitted)
        ensures
            r == self.spec_notification(),
    {
        ScoreSubmitted {
            player_name: self.player_name.clone(),
            wallet_address: self.wallet_address,
            total_earned: self.total_earned,
            total_clicks: self.total_clicks,
            play_time: self.play_time,
            timestamp: self.timestamp,
        }
    }
}

} // verus!
