//! The ledger's state as mathematical values.
//!
//! The contracts of the ledger's operations are stated over an `AirdropView`:
//! which callers it admits, which record it holds for an address, what it owes
//! in all, and what an operation makes of it.

use crate::account::AccountId;
use crate::errors::{ErrorView, RECIPIENT};
use crate::recipient::{Balance, Config, Recipient, Timestamp};
use crate::schedule::{schedule_ok, schedule_rejection, shape_ok};
use vstd::prelude::*;

verus! {

pub const AIRDROP_HAS_STARTED: &'static str = "Airdrop has started";

pub const AMOUNT_OVERFLOWS: &'static str = "Amount will cause to_be_collected to overflow";

pub const INSUFFICIENT_BALANCE: &'static str = "Insufficient balance";

pub const AMOUNT_EXCEEDS_TOTAL: &'static str = "Amount is greater than recipient's total amount";

pub const AMOUNT_IS_ZERO: &'static str = "Amount is zero";

pub const ALREADY_SUB_ADMIN: &'static str = "Already a sub admin";

pub const NOT_SUB_ADMIN: &'static str = "Not a sub admin";

pub const START_NOT_IN_FUTURE: &'static str = "New start time must be in the future";

pub const OWED_WHEN_CHANGING_START: &'static str =
    "to_be_collected must be zero when changing start time";

/// A [`Config`] with its sub-admins as a sequence.
#[verifier::ext_equal]
pub struct ConfigView {
    pub admin: AccountId,
    pub sub_admins: Seq<AccountId>,
    pub token: AccountId,
    pub to_be_collected: Balance,
    pub start: Timestamp,
    pub default_collectable_at_tge_percentage: u8,
    pub default_cliff_duration: Timestamp,
    pub default_vesting_duration: Timestamp,
}

impl View for Config {
    type V = ConfigView;

    open spec fn view(&self) -> ConfigView {
        ConfigView {
            admin: self.admin,
            sub_admins: self.sub_admins@,
            token: self.token,
            to_be_collected: self.to_be_collected,
            start: self.start,
            default_collectable_at_tge_percentage: self.default_collectable_at_tge_percentage,
            default_cliff_duration: self.default_cliff_duration,
            default_vesting_duration: self.default_vesting_duration,
        }
    }
}

/// The whole state of a ledger: its settings, and its recipients with their
/// addresses, in the order in which they were first granted anything.
#[verifier::ext_equal]
pub struct AirdropView {
    pub config: ConfigView,
    pub recipients: Seq<(AccountId, Recipient)>,
}

/// The sum over all entries of what each is still owed.
pub open spec fn sum_owed(entries: Seq<(AccountId, Recipient)>) -> int
    decreases entries.len(),
{
    if entries.len() == 0 {
        0
    } else {
        sum_owed(entries.drop_last()) + entries.last().1.owed()
    }
}

/// No address has two entries.
pub open spec fn distinct_addresses(entries: Seq<(AccountId, Recipient)>) -> bool {
    forall|i: int, j: int|
        0 <= i < entries.len() && 0 <= j < entries.len() && i != j ==> (#[trigger] entries[i]).0
            != (#[trigger] entries[j]).0
}

/// `holds` is true of every entry's record.
pub open spec fn every_record(
    entries: Seq<(AccountId, Recipient)>,
    holds: spec_fn(Recipient) -> bool,
) -> bool {
    forall|i: int| 0 <= i < entries.len() ==> holds((#[trigger] entries[i]).1)
}

/// No entry unlocks more than all of its total at the start.
pub open spec fn percentages_ok(entries: Seq<(AccountId, Recipient)>) -> bool {
    every_record(entries, |r: Recipient| r.collectable_at_tge_percentage <= 100)
}

/// Every entry's schedule has a valid shape.
pub open spec fn shaped(entries: Seq<(AccountId, Recipient)>) -> bool {
    every_record(
        entries,
        |r: Recipient|
            shape_ok(r.collectable_at_tge_percentage, r.cliff_duration, r.vesting_duration),
    )
}

/// No entry has withdrawn more than its total.
pub open spec fn none_overdrawn(entries: Seq<(AccountId, Recipient)>) -> bool {
    every_record(entries, |r: Recipient| r.collected <= r.total_amount)
}

/// The value that is given, and `current` where none is.
pub open spec fn given_or<T>(given: Option<T>, current: T) -> T {
    match given {
        Some(value) => value,
        None => current,
    }
}

/// `x - y`, and 0 where that is negative.
pub open spec fn minus_or_zero(x: Balance, y: Balance) -> Balance {
    if x >= y {
        (x - y) as Balance
    } else {
        0
    }
}

impl AirdropView {
    /// The state of a new ledger.
    pub open spec fn initial(
        admin: AccountId,
        token: AccountId,
        start: Timestamp,
        percentage: u8,
        cliff: Timestamp,
        vesting: Timestamp,
    ) -> AirdropView {
        AirdropView {
            config: ConfigView {
                admin,
                sub_admins: Seq::empty(),
                token,
                to_be_collected: 0,
                start,
                default_collectable_at_tge_percentage: percentage,
                default_cliff_duration: cliff,
                default_vesting_duration: vesting,
            },
            recipients: Seq::empty(),
        }
    }

    /// Whether a record is kept for `address`.
    pub open spec fn holds(self, address: AccountId) -> bool {
        exists|i: int| 0 <= i < self.recipients.len() && (#[trigger] self.recipients[i]).0 == address
    }

    /// Where the record of `address` is kept, if one is.
    pub open spec fn index_of(self, address: AccountId) -> int {
        choose|i: int| 0 <= i < self.recipients.len() && (#[trigger] self.recipients[i]).0 == address
    }

    /// Whether `slot` says where the record of `address` is kept: the place,
    /// or that there is none.
    pub open spec fn is_slot_of(self, slot: Option<usize>, address: AccountId) -> bool {
        match slot {
            Some(i) => self.holds(address) && i == self.index_of(address) && i
                < self.recipients.len(),
            None => !self.holds(address),
        }
    }

    /// The record kept for `address`.
    pub open spec fn recipient(self, address: AccountId) -> Option<Recipient> {
        if self.holds(address) {
            Some(self.recipients[self.index_of(address)].1)
        } else {
            None
        }
    }

    /// Whether `address` is on the list of sub-admins.
    pub open spec fn is_sub_admin(self, address: AccountId) -> bool {
        self.config.sub_admins.contains(address)
    }

    /// Whether `caller` may grant, subtract and set schedules: the admin and
    /// the sub-admins may.
    pub open spec fn may_edit_recipients(self, caller: AccountId) -> bool {
        caller == self.config.admin || self.is_sub_admin(caller)
    }

    /// Whether the distribution window is open at `now`. It opens at the
    /// start itself.
    pub open spec fn started(self, now: Timestamp) -> bool {
        now >= self.config.start
    }

    /// What all recipients together are still owed.
    pub open spec fn owed_total(self) -> int {
        sum_owed(self.recipients)
    }

    /// No address has two records.
    pub open spec fn distinct_recipients(self) -> bool {
        distinct_addresses(self.recipients)
    }

    /// Every record's schedule has a valid shape.
    pub open spec fn shaped_recipients(self) -> bool {
        shaped(self.recipients)
    }

    /// What the operations need of a ledger, and keep: no sub-admin is listed
    /// twice, no address has two records, no record unlocks more than all of
    /// its total at the start, and the default schedule is valid for the start.
    pub open spec fn wf(self) -> bool {
        &&& self.config.sub_admins.no_duplicates()
        &&& self.distinct_recipients()
        &&& percentages_ok(self.recipients)
        &&& schedule_ok(
            self.config.start,
            self.config.default_collectable_at_tge_percentage,
            self.config.default_cliff_duration,
            self.config.default_vesting_duration,
        )
    }

    /// No recipient has withdrawn more than their total, and the aggregate is
    /// the sum of what the recipients are owed.
    pub open spec fn balanced(self) -> bool {
        &&& none_overdrawn(self.recipients)
        &&& self.config.to_be_collected == self.owed_total()
    }

    /// The state with `record` kept for `address`, in place of the record that
    /// was kept for it or else behind all others.
    pub open spec fn put_recipient(self, address: AccountId, record: Recipient) -> AirdropView {
        AirdropView {
            recipients: if self.holds(address) {
                self.recipients.update(self.index_of(address), (address, record))
            } else {
                self.recipients.push((address, record))
            },
            ..self
        }
    }

    /// The state with `amount` as the aggregate still owed.
    pub open spec fn with_to_be_collected(self, amount: Balance) -> AirdropView {
        AirdropView { config: ConfigView { to_be_collected: amount, ..self.config }, ..self }
    }

    /// The state with `sub_admins` as the list of sub-admins.
    pub open spec fn with_sub_admins(self, sub_admins: Seq<AccountId>) -> AirdropView {
        AirdropView { config: ConfigView { sub_admins, ..self.config }, ..self }
    }

    /// Why an edit of the recipients is refused whatever it is, if it is: the
    /// caller is neither the admin nor a sub-admin, or the window has opened.
    pub open spec fn edit_rejection(self, caller: AccountId, now: Timestamp) -> Option<ErrorView> {
        if !self.may_edit_recipients(caller) {
            Some(ErrorView::Unauthorised)
        } else if self.started(now) {
            Some(ErrorView::UnprocessableEntity(AIRDROP_HAS_STARTED@))
        } else {
            None
        }
    }

    /// Why a grant is refused, if it is: the edit is refused; the aggregate
    /// with the amount added is no balance; `escrow_balance` does not cover
    /// that aggregate; or a part of the schedule is given and the schedule
    /// that would result is not valid for the start.
    pub open spec fn grant_rejection(
        self,
        caller: AccountId,
        now: Timestamp,
        escrow_balance: Balance,
        address: AccountId,
        amount: Balance,
        percentage: Option<u8>,
        cliff: Option<Timestamp>,
        vesting: Option<Timestamp>,
    ) -> Option<ErrorView> {
        if self.edit_rejection(caller, now) is Some {
            self.edit_rejection(caller, now)
        } else if self.config.to_be_collected + amount > u128::MAX {
            Some(ErrorView::UnprocessableEntity(AMOUNT_OVERFLOWS@))
        } else if self.config.to_be_collected + amount > escrow_balance {
            Some(ErrorView::UnprocessableEntity(INSUFFICIENT_BALANCE@))
        } else if percentage is None && cliff is None && vesting is None {
            None
        } else {
            let after = self.rescheduled(address, percentage, cliff, vesting);
            match schedule_rejection(
                self.config.start,
                after.collectable_at_tge_percentage,
                after.cliff_duration,
                after.vesting_duration,
            ) {
                Some(reason) => Some(ErrorView::UnprocessableEntity(reason)),
                None => None,
            }
        }
    }

    /// The record of `address` before anything is granted to it: the one
    /// kept for it, or else an empty one with the default schedule.
    pub open spec fn recipient_or_default(self, address: AccountId) -> Recipient {
        match self.recipient(address) {
            Some(record) => record,
            None => Recipient {
                total_amount: 0,
                collected: 0,
                collectable_at_tge_percentage: self.config.default_collectable_at_tge_percentage,
                cliff_duration: self.config.default_cliff_duration,
                vesting_duration: self.config.default_vesting_duration,
            },
        }
    }

    /// The record of `address` once `amount` is granted to it, with each
    /// part of the schedule that is given in place of the current one.
    pub open spec fn granted(
        self,
        address: AccountId,
        amount: Balance,
        percentage: Option<u8>,
        cliff: Option<Timestamp>,
        vesting: Option<Timestamp>,
    ) -> Recipient {
        let before = self.rescheduled(address, percentage, cliff, vesting);
        Recipient { total_amount: (before.total_amount + amount) as Balance, ..before }
    }

    /// The state once `amount` is granted to `address`: the record holds the
    /// amount more, and so does the aggregate.
    pub open spec fn after_grant(
        self,
        address: AccountId,
        amount: Balance,
        percentage: Option<u8>,
        cliff: Option<Timestamp>,
        vesting: Option<Timestamp>,
    ) -> AirdropView {
        self.put_recipient(
            address,
            self.granted(address, amount, percentage, cliff, vesting),
        ).with_to_be_collected((self.config.to_be_collected + amount) as Balance)
    }

    /// Why a subtraction is refused, if it is: the edit is refused; no record
    /// is kept for the address; or the amount exceeds the record's total.
    pub open spec fn subtract_rejection(
        self,
        caller: AccountId,
        now: Timestamp,
        address: AccountId,
        amount: Balance,
    ) -> Option<ErrorView> {
        if self.edit_rejection(caller, now) is Some {
            self.edit_rejection(caller, now)
        } else {
            match self.recipient(address) {
                None => Some(ErrorView::NotFound(RECIPIENT@)),
                Some(record) => if amount > record.total_amount {
                    Some(ErrorView::UnprocessableEntity(AMOUNT_EXCEEDS_TOTAL@))
                } else {
                    None
                },
            }
        }
    }

    /// The record of `address` once `amount` is subtracted from it.
    pub open spec fn subtracted(self, address: AccountId, amount: Balance) -> Recipient {
        let before = self.recipient_or_default(address);
        Recipient { total_amount: (before.total_amount - amount) as Balance, ..before }
    }

    /// The state once `amount` is subtracted from `address`: the record holds
    /// the amount less, and so does the aggregate, which stops at 0.
    pub open spec fn after_subtract(self, address: AccountId, amount: Balance) -> AirdropView {
        self.put_recipient(address, self.subtracted(address, amount)).with_to_be_collected(
            minus_or_zero(self.config.to_be_collected, amount),
        )
    }

    /// The record of `address` with each part of the schedule that is given
    /// in place of the current one.
    pub open spec fn rescheduled(
        self,
        address: AccountId,
        percentage: Option<u8>,
        cliff: Option<Timestamp>,
        vesting: Option<Timestamp>,
    ) -> Recipient {
        let before = self.recipient_or_default(address);
        Recipient {
            collectable_at_tge_percentage: given_or(
                percentage,
                before.collectable_at_tge_percentage,
            ),
            cliff_duration: given_or(cliff, before.cliff_duration),
            vesting_duration: given_or(vesting, before.vesting_duration),
            ..before
        }
    }

    /// Why a change of a schedule is refused, if it is: the edit is refused;
    /// no record is kept for the address; or the schedule that would result is
    /// not valid for the start.
    pub open spec fn reschedule_rejection(
        self,
        caller: AccountId,
        now: Timestamp,
        address: AccountId,
        percentage: Option<u8>,
        cliff: Option<Timestamp>,
        vesting: Option<Timestamp>,
    ) -> Option<ErrorView> {
        if self.edit_rejection(caller, now) is Some {
            self.edit_rejection(caller, now)
        } else if self.recipient(address) is None {
            Some(ErrorView::NotFound(RECIPIENT@))
        } else {
            let after = self.rescheduled(address, percentage, cliff, vesting);
            match schedule_rejection(
                self.config.start,
                after.collectable_at_tge_percentage,
                after.cliff_duration,
                after.vesting_duration,
            ) {
                Some(reason) => Some(ErrorView::UnprocessableEntity(reason)),
                None => None,
            }
        }
    }

    /// What `address` can withdraw at `now`, if a record is kept for it.
    pub open spec fn collectable(self, address: AccountId, now: Timestamp) -> Option<int> {
        match self.recipient(address) {
            Some(record) => Some(record.collectable_at(self.config.start, now)),
            None => None,
        }
    }

    /// Why nothing is paid out to `caller` at `now`, if nothing is: no record
    /// is kept for the caller, or the caller can withdraw nothing.
    pub open spec fn collect_rejection(self, caller: AccountId, now: Timestamp) -> Option<
        ErrorView,
    > {
        match self.collectable(caller, now) {
            None => Some(ErrorView::NotFound(RECIPIENT@)),
            Some(amount) => if amount == 0 {
                Some(ErrorView::UnprocessableEntity(AMOUNT_IS_ZERO@))
            } else {
                None
            },
        }
    }

    /// The record of `address` once it has withdrawn `amount`. The withdrawn
    /// amount stops at the largest balance.
    pub open spec fn collected(self, address: AccountId, amount: Balance) -> Recipient {
        let before = self.recipient_or_default(address);
        Recipient {
            collected: if before.collected + amount > u128::MAX {
                u128::MAX
            } else {
                (before.collected + amount) as Balance
            },
            ..before
        }
    }

    /// The state once `address` has withdrawn `amount`: the record's
    /// withdrawals hold the amount more, and the aggregate holds it less and
    /// stops at 0.
    pub open spec fn after_collect(self, address: AccountId, amount: Balance) -> AirdropView {
        self.put_recipient(address, self.collected(address, amount)).with_to_be_collected(
            minus_or_zero(self.config.to_be_collected, amount),
        )
    }

    /// The escrowed tokens that are owed to nobody.
    pub open spec fn spare(self, escrow_balance: Balance) -> Balance {
        minus_or_zero(escrow_balance, self.config.to_be_collected)
    }

    /// Why no spare tokens are returned, if none are: the caller is not the
    /// admin, or nothing is spare.
    pub open spec fn spare_rejection(self, caller: AccountId, escrow_balance: Balance) -> Option<
        ErrorView,
    > {
        if caller != self.config.admin {
            Some(ErrorView::Unauthorised)
        } else if self.spare(escrow_balance) == 0 {
            Some(ErrorView::UnprocessableEntity(AMOUNT_IS_ZERO@))
        } else {
            None
        }
    }

    /// Why no tokens may be pulled in, if none may: the caller is not the
    /// admin, or the window has opened.
    pub open spec fn acquire_rejection(self, caller: AccountId, now: Timestamp) -> Option<
        ErrorView,
    > {
        if caller != self.config.admin {
            Some(ErrorView::Unauthorised)
        } else if self.started(now) {
            Some(ErrorView::UnprocessableEntity(AIRDROP_HAS_STARTED@))
        } else {
            None
        }
    }

    /// Why `address` is not added to the sub-admins, if it is not: the caller
    /// is not the admin, or the address is a sub-admin.
    pub open spec fn add_sub_admin_rejection(self, caller: AccountId, address: AccountId) -> Option<
        ErrorView,
    > {
        if caller != self.config.admin {
            Some(ErrorView::Unauthorised)
        } else if self.is_sub_admin(address) {
            Some(ErrorView::UnprocessableEntity(ALREADY_SUB_ADMIN@))
        } else {
            None
        }
    }

    /// Why `address` is not removed from the sub-admins, if it is not: the
    /// caller is not the admin, or the address is no sub-admin.
    pub open spec fn remove_sub_admin_rejection(
        self,
        caller: AccountId,
        address: AccountId,
    ) -> Option<ErrorView> {
        if caller != self.config.admin {
            Some(ErrorView::Unauthorised)
        } else if !self.is_sub_admin(address) {
            Some(ErrorView::UnprocessableEntity(NOT_SUB_ADMIN@))
        } else {
            None
        }
    }

    /// The state with `address` behind the other sub-admins.
    pub open spec fn after_add_sub_admin(self, address: AccountId) -> AirdropView {
        self.with_sub_admins(self.config.sub_admins.push(address))
    }

    /// The state with `address` taken out of the sub-admins, the others in
    /// the order they had.
    pub open spec fn after_remove_sub_admin(self, address: AccountId) -> AirdropView {
        self.with_sub_admins(
            self.config.sub_admins.remove(self.config.sub_admins.index_of(address)),
        )
    }

    /// Why a change of the settings is refused, if it is: the caller is not
    /// the admin; a new start is not after `now`; a new start is given while
    /// something is owed; or the schedule that would result is not valid.
    pub open spec fn config_rejection(
        self,
        caller: AccountId,
        now: Timestamp,
        start: Option<Timestamp>,
        percentage: Option<u8>,
        cliff: Option<Timestamp>,
        vesting: Option<Timestamp>,
    ) -> Option<ErrorView> {
        if caller != self.config.admin {
            Some(ErrorView::Unauthorised)
        } else if start matches Some(s) && s <= now {
            Some(ErrorView::UnprocessableEntity(START_NOT_IN_FUTURE@))
        } else if start is Some && self.config.to_be_collected != 0 {
            Some(ErrorView::UnprocessableEntity(OWED_WHEN_CHANGING_START@))
        } else {
            match schedule_rejection(
                given_or(start, self.config.start),
                given_or(percentage, self.config.default_collectable_at_tge_percentage),
                given_or(cliff, self.config.default_cliff_duration),
                given_or(vesting, self.config.default_vesting_duration),
            ) {
                Some(reason) => Some(ErrorView::UnprocessableEntity(reason)),
                None => None,
            }
        }
    }

    /// The state with each setting that is given in place of the current one.
    pub open spec fn reconfigured(
        self,
        admin: Option<AccountId>,
        start: Option<Timestamp>,
        percentage: Option<u8>,
        cliff: Option<Timestamp>,
        vesting: Option<Timestamp>,
    ) -> AirdropView {
        AirdropView {
            config: ConfigView {
                admin: given_or(admin, self.config.admin),
                start: given_or(start, self.config.start),
                default_collectable_at_tge_percentage: given_or(
                    percentage,
                    self.config.default_collectable_at_tge_percentage,
                ),
                default_cliff_duration: given_or(cliff, self.config.default_cliff_duration),
                default_vesting_duration: given_or(vesting, self.config.default_vesting_duration),
                ..self.config
            },
            ..self
        }
    }
}

} // verus!
