//! Which combinations of start, share at start, cliff and vesting are accepted.

use crate::errors::{AzAirdropError, ErrorView};
use crate::recipient::Timestamp;
use vstd::prelude::*;

verus! {

pub const PERCENTAGE_ABOVE_100: &'static str =
    "collectable_at_tge_percentage must be less than or equal to 100";

pub const TAIL_AT_FULL_PERCENTAGE: &'static str =
    "cliff_duration and vesting_duration must be 0 when collectable_tge_percentage is 100";

pub const NO_VESTING_BELOW_FULL_PERCENTAGE: &'static str =
    "vesting_duration must be greater than 0 when collectable_tge_percentage is not 100";

pub const END_EXCEEDS_LIMIT: &'static str =
    "Combination of start, cliff_duration and vesting_duration exceeds limit";

/// The part of a schedule's validity that does not depend on the start: the
/// percentage is at most 100; at 100 there is neither cliff nor vesting; below
/// 100 the vesting takes time.
pub open spec fn shape_ok(percentage: u8, cliff: Timestamp, vesting: Timestamp) -> bool {
    &&& percentage <= 100
    &&& percentage == 100 ==> cliff == 0 && vesting == 0
    &&& percentage < 100 ==> vesting > 0
}

/// A schedule is valid when its shape is and its end is a timestamp.
pub open spec fn schedule_ok(
    start: Timestamp,
    percentage: u8,
    cliff: Timestamp,
    vesting: Timestamp,
) -> bool {
    &&& shape_ok(percentage, cliff, vesting)
    &&& start + cliff + vesting <= u64::MAX
}

/// The first rule that the combination breaks, by its text; `None` if it
/// breaks none.
pub open spec fn schedule_rejection(
    start: Timestamp,
    percentage: u8,
    cliff: Timestamp,
    vesting: Timestamp,
) -> Option<Seq<char>> {
    if percentage > 100 {
        Some(PERCENTAGE_ABOVE_100@)
    } else if percentage == 100 && (cliff > 0 || vesting > 0) {
        Some(TAIL_AT_FULL_PERCENTAGE@)
    } else if percentage < 100 && vesting == 0 {
        Some(NO_VESTING_BELOW_FULL_PERCENTAGE@)
    } else if start + cliff + vesting > u64::MAX {
        Some(END_EXCEEDS_LIMIT@)
    } else {
        None
    }
}

/// A combination is rejected exactly when it is not valid.
pub proof fn lemma_rejection_iff_invalid(
    start: Timestamp,
    percentage: u8,
    cliff: Timestamp,
    vesting: Timestamp,
)
    ensures
        schedule_rejection(start, percentage, cliff, vesting) is None <==> schedule_ok(
            start,
            percentage,
            cliff,
            vesting,
        ),
{
}

/// Accepts a valid combination and rejects any other with the text of the
/// first rule it breaks.
pub fn validate_airdrop_calculation_variables(
    start: Timestamp,
    collectable_at_tge_percentage: u8,
    cliff_duration: Timestamp,
    vesting_duration: Timestamp,
) -> (r: Result<(), AzAirdropError>)
    ensures
        r is Ok <==> schedule_ok(
            start,
            collectable_at_tge_percentage,
            cliff_duration,
            vesting_duration,
        ),
        r matches Err(e) ==> schedule_rejection(
            start,
            collectable_at_tge_percentage,
            cliff_duration,
            vesting_duration,
        ) matches Some(reason) && e@ == ErrorView::UnprocessableEntity(reason),
{
    if collectable_at_tge_percentage > 100 {
        return Err(AzAirdropError::unprocessable(PERCENTAGE_ABOVE_100));
    } else if collectable_at_tge_percentage == 100 {
        if cliff_duration > 0 || vesting_duration > 0 {
            return Err(AzAirdropError::unprocessable(TAIL_AT_FULL_PERCENTAGE));
        }
    } else if vesting_duration == 0 {
        return Err(AzAirdropError::unprocessable(NO_VESTING_BELOW_FULL_PERCENTAGE));
    }
    let end_timestamp: u128 = start as u128 + cliff_duration as u128 + vesting_duration as u128;
    if end_timestamp > u64::MAX as u128 {
        return Err(AzAirdropError::unprocessable(END_EXCEEDS_LIMIT));
    }
    Ok(())
}

} // verus!
