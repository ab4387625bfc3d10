//! The two plausibility checks that every score submission must pass.
//!
//! Both checks use integer (truncating) division, so acceptance at the
//! boundary values is exact.

use vstd::prelude::*;

use crate::errors::ContractErrors;

verus! {

/// The largest amount that may be earned per click.
pub const MAX_PER_CLICK: u64 = 10_000;

/// One second of play time is required per this many units earned.
pub const MIN_PLAY_TIME_RATIO: u64 = 100;

/// The ratio check fails: some clicks were made and the amount earned per
/// click, rounded down, is above `MAX_PER_CLICK`.
pub open spec fn ratio_too_high(total_earned: u64, total_clicks: u64) -> bool {
    total_clicks > 0 && total_earned / total_clicks > MAX_PER_CLICK
}

/// The least play time, in seconds, that the amount earned calls for.
pub open spec fn spec_min_play_time(total_earned: u64) -> u64 {
    total_earned / MIN_PLAY_TIME_RATIO
}

/// The play-time check fails: both play time and earnings are positive and the
/// play time is below `spec_min_play_time`.
pub open spec fn play_time_too_short(total_earned: u64, play_time: u64) -> bool {
    play_time > 0 && total_earned > 0 && play_time < spec_min_play_time(total_earned)
}

/// The verdict on a submission: the ratio check first, then the play-time
/// check; the first failing check gives the reason.
pub open spec fn verdict(total_earned: u64, total_clicks: u64, play_time: u64) -> Result<
    (),
    ContractErrors,
> {
    if ratio_too_high(total_earned, total_clicks) {
        Err(ContractErrors::CheatDetectedInvalidRatio)
    } else if play_time_too_short(total_earned, play_time) {
        Err(ContractErrors::CheatDetectedImpossiblePlayTime)
    } else {
        Ok(())
    }
}

/// The least play time, in seconds, that `total_earned` calls for.
pub fn min_play_time(total_earned: u64) -> (r: u64)
    ensures
        r == spec_min_play_time(total_earned),
{
    total_earned / MIN_PLAY_TIME_RATIO
}

/// Whether the ratio check rejects. It never does without clicks.
pub fn rejects_ratio(total_earned: u64, total_clicks: u64) -> (r: bool)
    ensures
        r == ratio_too_high(total_earned, total_clicks),
        total_clicks == 0 ==> !r,
        total_clicks > 0 ==> (r <==> total_earned / total_clicks > MAX_PER_CLICK),
{
    total_clicks > 0 && total_earned / total_clicks > MAX_PER_CLICK
}

/// Whether the play-time check rejects. It never does when the play time or
/// the amount earned is zero.
pub fn rejects_play_time(total_earned: u64, play_time: u64) -> (r: bool)
    ensures
        r == play_time_too_short(total_earned, play_time),
        play_time == 0 || total_earned == 0 ==> !r,
        play_time > 0 && total_earned > 0 ==> (r <==> play_time < total_earned
            / MIN_PLAY_TIME_RATIO),
{
    if play_time > 0 && total_earned > 0 {
        play_time < min_play_time(total_earned)
    } else {
        false
    }
}

/// Checks a submission: `Err(CheatDetectedInvalidRatio)` when the ratio check
/// rejects, else `Err(CheatDetectedImpossiblePlayTime)` when the play-time
/// check rejects, else `Ok(())`.
pub fn validate(total_earned: u64, total_clicks: u64, play_time: u64) -> (r: Result<
    (),
    ContractErrors,
>)
    ensures
        r == verdict(total_earned, total_clicks, play_time),
        r == Err::<(), ContractErrors>(ContractErrors::CheatDetectedInvalidRatio) <==> ratio_too_high(
            total_earned,
            total_clicks,
        ),
        r == Err::<(), ContractErrors>(ContractErrors::CheatDetectedImpossiblePlayTime) <==> (
        !ratio_too_high(total_earned, total_clicks) && play_time_too_short(
            total_earned,
            play_time,
        )),
        r is Ok <==> !ratio_too_high(total_earned, total_clicks) && !play_time_too_short(
            total_earned,
            play_time,
        ),
{
    if rejects_ratio(total_earned, total_clicks) {
        return Err(ContractErrors::CheatDetectedInvalidRatio);
    }
    if rejects_play_time(total_earned, play_time) {
        return Err(ContractErrors::CheatDetectedImpossiblePlayTime);
    }
    Ok(())
}

} // verus!
