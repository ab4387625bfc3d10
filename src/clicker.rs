//! The leaderboard contract: validated submissions and read-only queries.

use vstd::prelude::*;

use crate::address::Address;
use crate::anti_cheat::{validate, verdict};
use crate::errors::ContractErrors;
use crate::leaderboard::Leaderboard;
use crate::score::{PlayerScore, ScoreSubmitted};

verus! {

/// The record that an accepted submission stores for `caller`.
pub open spec fn submitted_record(
    caller: Address,
    player_name: String,
    total_earned: u64,
    total_clicks: u64,
    play_time: u64,
    timestamp: u64,
) -> PlayerScore {
    PlayerScore {
        player_name,
        wallet_address: caller,
        total_earned,
        total_clicks,
        play_time,
        timestamp,
    }
}

/// Checks a submission from `caller` and, when it passes, builds the record
/// to store. The refusal reason is that of the first failing check.
pub fn accept_submission(
    caller: Address,
    player_name: String,
    total_earned: u64,
    total_clicks: u64,
    play_time: u64,
    timestamp: u64,
) -> (r: Result<PlayerScore, ContractErrors>)
    ensures
        match verdict(total_earned, total_clicks, play_time) {
            Err(e) => r == Err::<PlayerScore, ContractErrors>(e),
            Ok(_) => r == Ok::<PlayerScore, ContractErrors>(
                submitted_record(
                    caller,
                    player_name,
                    total_earned,
                    total_clicks,
                    play_time,
                    timestamp,
                ),
            ),
        },
{
    match validate(total_earned, total_clicks, play_time) {
        Err(e) => Err(e),
        Ok(()) => Ok(
            PlayerScore {
                player_name,
                wallet_address: caller,
                total_earned,
                total_clicks,
                play_time,
                timestamp,
            },
        ),
    }
}

/// The contract state: the latest accepted score of each identity.
pub struct CasperClicker {
    leaderboard: Leaderboard,
}

impl View for CasperClicker {
    type V = Map<Address, PlayerScore>;

    closed spec fn view(&self) -> Map<Address, PlayerScore> {
        self.leaderboard@
    }
}

impl CasperClicker {
    /// Well-formedness of the underlying store.
    pub closed spec fn wf(&self) -> bool {
        self.leaderboard.wf()
    }

    /// A contract with no scores recorded.
    pub fn new() -> (r: CasperClicker)
        ensures
            r.wf(),
            r@ == Map::<Address, PlayerScore>::empty(),
    {
        CasperClicker { leaderboard: Leaderboard::new() }
    }

    /// Readies the contract; no state changes.
    pub fn init(&mut self)
        requires
            old(self).wf(),
        ensures
            final(self).wf(),
            final(self)@ == old(self)@,
    {
    }

    /// Submits a score for `caller`, the identity resolved by the environment.
    ///
    /// A submission that fails a check is refused with the reason of the first
    /// failing check, and nothing changes. An accepted one replaces whatever
    /// was recorded for `caller` and returns the notification to emit, which
    /// carries the same fields as the stored record.
    pub fn submit_score(
        &mut self,
        caller: Address,
        player_name: String,
        total_earned: u64,
        total_clicks: u64,
        play_time: u64,
        timestamp: u64,
    ) -> (r: Result<ScoreSubmitted, ContractErrors>)
        requires
            old(self).wf(),
        ensures
            final(self).wf(),
            match verdict(total_earned, total_clicks, play_time) {
                Err(e) => r == Err::<ScoreSubmitted, ContractErrors>(e) && final(self)@ == old(
                    self,
                )@,
                Ok(_) => {
                    let rec = submitted_record(
                        caller,
                        player_name,
                        total_earned,
                        total_clicks,
                        play_time,
                        timestamp,
                    );
                    &&& r == Ok::<ScoreSubmitted, ContractErrors>(rec.spec_notification())
                    &&& final(self)@ == old(self)@.insert(caller, rec)
                },
            },
    {
        match accept_submission(
            caller,
            player_name,
            total_earned,
            total_clicks,
            play_time,
            timestamp,
        ) {
            Err(e) => Err(e),
            Ok(score) => {
                let event = score.notification();
                self.leaderboard.upsert(score);
                Ok(event)
            },
        }
    }

    /// The score recorded for `wallet_address`, or `None` when it has none.
    pub fn get_player_score(&self, wallet_address: Address) -> (r: Option<PlayerScore>)
        requires
            self.wf(),
        ensures
            r == (if self@.contains_key(wallet_address) {
                Some(self@[wallet_address])
            } else {
                None
            }),
    {
        self.leaderboard.get(&wallet_address)
    }

    /// Whether a score is recorded for `wallet_address`.
    pub fn has_score(&self, wallet_address: Address) -> (r: bool)
        requires
            self.wf(),
        ensures
            r == self@.contains_key(wallet_address),
    {
        self.leaderboard.contains(&wallet_address)
    }

    /// The number of players. No count is kept: this is always zero.
    pub fn get_total_players(&self) -> (r: u64)
        ensures
            r == 0,
    {
        0
    }
}

} // verus!
