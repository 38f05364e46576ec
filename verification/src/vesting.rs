//! How much of a grant has unlocked at a given time.
//!
//! A share of the grant, the percentage at the token generation event, unlocks
//! when the window opens. After the cliff the remainder unlocks in proportion
//! to the time elapsed, until after the vesting duration all of it has.

use crate::recipient::{Balance, Recipient, Timestamp};
use crate::wide::mul_div;
use vstd::arithmetic::div_mod::{lemma_div_is_ordered, lemma_div_multiples_vanish};
use vstd::arithmetic::mul::lemma_mul_inequality;
use vstd::prelude::*;

verus! {

impl Recipient {
    /// The amount that unlocks when the window opens: the percentage of the
    /// total, rounded down.
    pub open spec fn tge_amount(self) -> int {
        self.collectable_at_tge_percentage * self.total_amount / 100
    }

    /// The amount that the vesting tail has unlocked at `now`: nothing before
    /// the cliff has passed, then the remainder in proportion to the time since,
    /// rounded down. It is not capped: long after the end it exceeds the
    /// remainder.
    pub open spec fn vested_at(self, start: Timestamp, now: Timestamp) -> int {
        if self.vesting_duration == 0 || now < start + self.cliff_duration {
            0
        } else {
            (now - (start + self.cliff_duration)) * (self.total_amount - self.tge_amount())
                / (self.vesting_duration as int)
        }
    }

    /// The amount unlocked at `now`, withdrawn or not: nothing before the
    /// start, never more than the total.
    pub open spec fn unlocked_at(self, start: Timestamp, now: Timestamp) -> int {
        if now < start {
            0
        } else {
            let unlocked = self.tge_amount() + self.vested_at(start, now);
            if unlocked > self.total_amount {
                self.total_amount as int
            } else {
                unlocked
            }
        }
    }

    /// The amount that can be withdrawn at `now`: what has unlocked less what
    /// was withdrawn, and nothing where more was withdrawn than has unlocked.
    pub open spec fn collectable_at(self, start: Timestamp, now: Timestamp) -> int {
        let unlocked = self.unlocked_at(start, now);
        if unlocked > self.collected {
            unlocked - self.collected
        } else {
            0
        }
    }

    /// The amount that the recipient can withdraw at `now`, for a window that
    /// opens at `start`.
    pub fn collectable_amount(&self, start: Timestamp, now: Timestamp) -> (amount: Balance)
        requires
            self.collectable_at_tge_percentage <= 100,
        ensures
            amount == self.collectable_at(start, now),
    {
        let mut unlocked: Balance = 0;
        if now >= start {
            proof {
                lemma_tge_within_total(*self);
            }
            let at_tge: Balance = mul_div(
                self.collectable_at_tge_percentage as u128,
                self.total_amount,
                100,
            );
            unlocked = at_tge;
            if self.vesting_duration > 0 {
                let vesting_start: u128 = start as u128 + self.cliff_duration as u128;
                if now as u128 >= vesting_start {
                    let elapsed: u128 = now as u128 - vesting_start;
                    let remainder: Balance = self.total_amount - at_tge;
                    proof {
                        lemma_proportion(
                            elapsed as int,
                            remainder as int,
                            self.vesting_duration as int,
                        );
                    }
                    if elapsed >= self.vesting_duration as u128 {
                        unlocked = self.total_amount;
                    } else {
                        let vested: Balance = mul_div(
                            elapsed,
                            remainder,
                            self.vesting_duration as u128,
                        );
                        unlocked = at_tge + vested;
                    }
                }
            }
        }
        unlocked.saturating_sub(self.collected)
    }
}

/// With a percentage of at most 100, the amount at the start lies between
/// nothing and the total.
pub proof fn lemma_tge_within_total(r: Recipient)
    requires
        r.collectable_at_tge_percentage <= 100,
    ensures
        0 <= r.tge_amount() <= r.total_amount,
{
    let p = r.collectable_at_tge_percentage as int;
    let t = r.total_amount as int;
    lemma_mul_inequality(p, 100, t);
    lemma_mul_inequality(0, p, t);
    lemma_div_is_ordered(p * t, 100 * t, 100);
    lemma_div_is_ordered(0 * t, p * t, 100);
    lemma_div_multiples_vanish(t, 100);
}

/// A share `elapsed / duration` of `amount`, rounded down, is not negative;
/// it stays within `amount` while the time is within the duration, and
/// reaches `amount` once the duration has passed.
pub proof fn lemma_proportion(elapsed: int, amount: int, duration: int)
    requires
        0 <= elapsed,
        0 <= amount,
        0 < duration,
    ensures
        0 <= elapsed * amount / duration,
        elapsed <= duration ==> elapsed * amount / duration <= amount,
        elapsed >= duration ==> elapsed * amount / duration >= amount,
{
    lemma_mul_inequality(0, elapsed, amount);
    lemma_div_is_ordered(0 * amount, elapsed * amount, duration);
    lemma_div_multiples_vanish(amount, duration);
    if elapsed <= duration {
        lemma_mul_inequality(elapsed, duration, amount);
        lemma_div_is_ordered(elapsed * amount, duration * amount, duration);
    }
    if elapsed >= duration {
        lemma_mul_inequality(duration, elapsed, amount);
        lemma_div_is_ordered(duration * amount, elapsed * amount, duration);
    }
}

/// The amount a recipient can withdraw never shrinks as time passes.
pub proof fn lemma_collectable_monotonic(
    r: Recipient,
    start: Timestamp,
    earlier: Timestamp,
    later: Timestamp,
)
    requires
        r.collectable_at_tge_percentage <= 100,
        earlier <= later,
    ensures
        r.collectable_at(start, earlier) <= r.collectable_at(start, later),
{
    lemma_tge_within_total(r);
    lemma_vested_monotonic(r, start, earlier, later);
}

/// The vesting tail never shrinks as time passes, and is never negative.
pub proof fn lemma_vested_monotonic(
    r: Recipient,
    start: Timestamp,
    earlier: Timestamp,
    later: Timestamp,
)
    requires
        r.collectable_at_tge_percentage <= 100,
        earlier <= later,
    ensures
        0 <= r.vested_at(start, earlier) <= r.vested_at(start, later),
{
    lemma_tge_within_total(r);
    let remainder = r.total_amount - r.tge_amount();
    let duration = r.vesting_duration as int;
    let vesting_start = start + r.cliff_duration;
    if duration > 0 && later >= vesting_start {
        let e2 = later - vesting_start;
        lemma_proportion(e2, remainder, duration);
        if earlier >= vesting_start {
            let e1 = earlier - vesting_start;
            lemma_proportion(e1, remainder, duration);
            lemma_mul_inequality(e1, e2, remainder);
            lemma_div_is_ordered(e1 * remainder, e2 * remainder, duration);
        }
    }
}

} // verus!
