//! Properties of the checks and of the store, proved over the contracts of
//! `anti_cheat`, `leaderboard` and `clicker`.

use vstd::prelude::*;

use crate::address::Address;
use crate::anti_cheat::{
    play_time_too_short,
    ratio_too_high,
    verdict,
    MAX_PER_CLICK,
    MIN_PLAY_TIME_RATIO,
};
use crate::errors::ContractErrors;
use crate::score::PlayerScore;

verus! {

/// The store after a run of accepted submissions, each stored in turn under
/// its own identity, starting from an empty store.
pub open spec fn accepted_history(records: Seq<PlayerScore>) -> Map<Address, PlayerScore>
    decreases records.len(),
{
    if records.len() == 0 {
        Map::empty()
    } else {
        let last = records.last();
        accepted_history(records.drop_last()).insert(last.wallet_address, last)
    }
}

/// Without clicks the ratio check never rejects, whatever was earned.
pub proof fn lemma_no_clicks_no_ratio_rejection(total_earned: u64, play_time: u64)
    ensures
        !ratio_too_high(total_earned, 0),
        verdict(total_earned, 0, play_time) != Err::<(), ContractErrors>(
            ContractErrors::CheatDetectedInvalidRatio,
        ),
{
}

/// With clicks, a submission is refused for its ratio exactly when the amount
/// earned per click, rounded down, is above `MAX_PER_CLICK`.
pub proof fn lemma_ratio_rejection_exact(total_earned: u64, total_clicks: u64, play_time: u64)
    requires
        total_clicks > 0,
    ensures
        verdict(total_earned, total_clicks, play_time) == Err::<(), ContractErrors>(
            ContractErrors::CheatDetectedInvalidRatio,
        ) <==> total_earned / total_clicks > MAX_PER_CLICK,
{
}

/// Earning exactly `MAX_PER_CLICK` per click passes the ratio check.
pub proof fn lemma_ratio_boundary_accepted(total_clicks: u64)
    requires
        total_clicks > 0,
        MAX_PER_CLICK * total_clicks <= u64::MAX,
    ensures
        !ratio_too_high((MAX_PER_CLICK * total_clicks) as u64, total_clicks),
{
    let c = total_clicks as int;
    assert((10_000 * c) / c == 10_000) by (nonlinear_arith)
        requires
            c > 0,
    ;
}

/// Without play time, or without earnings, the play-time check never rejects.
pub proof fn lemma_play_time_check_skipped(total_earned: u64, total_clicks: u64, play_time: u64)
    requires
        play_time == 0 || total_earned == 0,
    ensures
        !play_time_too_short(total_earned, play_time),
        verdict(total_earned, total_clicks, play_time) != Err::<(), ContractErrors>(
            ContractErrors::CheatDetectedImpossiblePlayTime,
        ),
{
}

/// With play time and earnings, the play-time check rejects exactly when the
/// play time is below the amount earned divided by `MIN_PLAY_TIME_RATIO`,
/// rounded down; after a passed ratio check that is the reason given.
pub proof fn lemma_play_time_rejection_exact(
    total_earned: u64,
    total_clicks: u64,
    play_time: u64,
)
    requires
        play_time > 0,
        total_earned > 0,
    ensures
        play_time_too_short(total_earned, play_time) <==> play_time < total_earned
            / MIN_PLAY_TIME_RATIO,
        !ratio_too_high(total_earned, total_clicks) ==> (verdict(
            total_earned,
            total_clicks,
            play_time,
        ) == Err::<(), ContractErrors>(ContractErrors::CheatDetectedImpossiblePlayTime)
            <==> play_time < total_earned / MIN_PLAY_TIME_RATIO),
{
}

/// A play time of exactly the minimum passes the play-time check.
pub proof fn lemma_play_time_boundary_accepted(total_earned: u64)
    ensures
        !play_time_too_short(total_earned, total_earned / MIN_PLAY_TIME_RATIO),
{
}

/// A second accepted submission for the same identity leaves only the second
/// record: the store is as if the first had never been made.
pub proof fn lemma_resubmission_overwrites(
    records: Seq<PlayerScore>,
    first: PlayerScore,
    second: PlayerScore,
)
    requires
        first.wallet_address == second.wallet_address,
    ensures
        accepted_history(records.push(first).push(second)) == accepted_history(
            records.push(second),
        ),
        accepted_history(records.push(first).push(second))[second.wallet_address] == second,
{
    assert(records.push(first).push(second).drop_last() =~= records.push(first));
    assert(records.push(first).drop_last() =~= records);
    assert(records.push(second).drop_last() =~= records);
    let m = accepted_history(records);
    assert(accepted_history(records.push(first)) == m.insert(first.wallet_address, first));
    assert(accepted_history(records.push(second)) == m.insert(second.wallet_address, second));
    assert(accepted_history(records.push(first).push(second)) == accepted_history(
        records.push(first),
    ).insert(second.wallet_address, second));
    assert(m.insert(first.wallet_address, first).insert(second.wallet_address, second) =~= m.insert(
        second.wallet_address,
        second,
    ));
}

/// An identity that no accepted submission came from has no record.
pub proof fn lemma_no_submission_no_record(records: Seq<PlayerScore>, a: Address)
    requires
        forall|i: int| 0 <= i < records.len() ==> (#[trigger] records[i]).wallet_address != a,
    ensures
        !accepted_history(records).contains_key(a),
    decreases records.len(),
{
    if records.len() > 0 {
        let rest = records.drop_last();
        assert forall|i: int| 0 <= i < rest.len() implies (#[trigger] rest[i]).wallet_address
            != a by {
            assert(rest[i] == records[i]);
        }
        lemma_no_submission_no_record(rest, a);
        assert(records.last() == records[records.len() - 1]);
    }
}

} // verus!
