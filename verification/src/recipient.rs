//! The records that the ledger keeps and hands out.

use crate::account::AccountId;
use vstd::prelude::*;

verus! {

/// An amount of the escrowed token.
pub type Balance = u128;

/// A point in time or a duration, in milliseconds.
pub type Timestamp = u64;

/// What one address was granted, what it has withdrawn, and its schedule.
#[derive(Clone, Copy, Debug, PartialEq, Eq, Structural)]
pub struct Recipient {
    /// Everything ever granted to the address, less what was subtracted.
    pub total_amount: Balance,
    /// Everything the address has withdrawn.
    pub collected: Balance,
    /// Percentage of `total_amount` that unlocks when the window opens.
    pub collectable_at_tge_percentage: u8,
    /// Time after the start during which nothing more unlocks.
    pub cliff_duration: Timestamp,
    /// Time after the cliff over which the remainder unlocks linearly.
    pub vesting_duration: Timestamp,
}

impl Recipient {
    /// What the recipient has been granted and not yet withdrawn.
    pub open spec fn owed(self) -> int {
        self.total_amount - self.collected
    }
}

/// The ledger's global settings, as handed out by `AzAirdrop::config`.
#[derive(Debug, PartialEq, Eq)]
pub struct Config {
    pub admin: AccountId,
    pub sub_admins: Vec<AccountId>,
    pub token: AccountId,
    pub to_be_collected: Balance,
    pub start: Timestamp,
    pub default_collectable_at_tge_percentage: u8,
    pub default_cliff_duration: Timestamp,
    pub default_vesting_duration: Timestamp,
}

/// The event of a grant, for the host to publish.
#[derive(Debug, PartialEq, Eq)]
pub struct RecipientAdd {
    pub address: AccountId,
    pub amount: Balance,
    pub caller: AccountId,
    pub description: Option<String>,
}

/// The event of a subtraction, for the host to publish.
#[derive(Debug, PartialEq, Eq)]
pub struct RecipientSubtract {
    pub address: AccountId,
    pub amount: Balance,
    pub caller: AccountId,
    pub description: Option<String>,
}

} // verus!
