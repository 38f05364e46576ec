//! What holds of every ledger.
//!
//! A ledger is balanced when no recipient has withdrawn more than their total
//! and the aggregate it owes is the sum of what its recipients are owed. A new
//! ledger is balanced, and every operation keeps it so, with one exception: a
//! subtraction of more than the recipient is still owed.
//!
//! The sub-admins are a list without repetition, so that the list and the
//! question whether an address is a sub-admin speak of the same addresses.
//!
//! The laws are stated for each operation by itself, and at the end for every
//! sequence of calls that a new ledger may meet.

use crate::account::AccountId;
use crate::ledger::lemma_owed_within_sum;
use crate::recipient::{Balance, Recipient, Timestamp};
use crate::schedule::{schedule_ok, shape_ok};
use crate::state::{sum_owed, AirdropView};
use crate::vesting::{lemma_collectable_monotonic, lemma_tge_within_total};
use vstd::prelude::*;

verus! {

/// One call of an operation that may change a ledger, with its arguments.
pub enum Call {
    /// `recipient_add`
    Grant {
        caller: AccountId,
        now: Timestamp,
        escrow_balance: Balance,
        address: AccountId,
        amount: Balance,
        percentage: Option<u8>,
        cliff: Option<Timestamp>,
        vesting: Option<Timestamp>,
    },
    /// `recipient_subtract`
    Subtract { caller: AccountId, now: Timestamp, address: AccountId, amount: Balance },
    /// `update_recipient`
    Reschedule {
        caller: AccountId,
        now: Timestamp,
        address: AccountId,
        percentage: Option<u8>,
        cliff: Option<Timestamp>,
        vesting: Option<Timestamp>,
    },
    /// `collect`, with whether the transfer went through
    Collect { caller: AccountId, now: Timestamp, paid: bool },
    /// `update_config`
    Reconfigure {
        caller: AccountId,
        now: Timestamp,
        admin: Option<AccountId>,
        start: Option<Timestamp>,
        percentage: Option<u8>,
        cliff: Option<Timestamp>,
        vesting: Option<Timestamp>,
    },
    /// `sub_admins_add`
    AddSubAdmin { caller: AccountId, address: AccountId },
    /// `sub_admins_remove`
    RemoveSubAdmin { caller: AccountId, address: AccountId },
}

impl AirdropView {
    /// The state that `call` leaves: the state it makes where it is admitted,
    /// and the state as it was where it is refused.
    pub open spec fn after(self, call: Call) -> AirdropView {
        match call {
            Call::Grant {
                caller,
                now,
                escrow_balance,
                address,
                amount,
                percentage,
                cliff,
                vesting,
            } => if self.grant_rejection(
                caller,
                now,
                escrow_balance,
                address,
                amount,
                percentage,
                cliff,
                vesting,
            ) is None {
                self.after_grant(address, amount, percentage, cliff, vesting)
            } else {
                self
            },
            Call::Subtract { caller, now, address, amount } => if self.subtract_rejection(
                caller,
                now,
                address,
                amount,
            ) is None {
                self.after_subtract(address, amount)
            } else {
                self
            },
            Call::Reschedule {
                caller,
                now,
                address,
                percentage,
                cliff,
                vesting,
            } => if self.reschedule_rejection(caller, now, address, percentage, cliff, vesting)
                is None {
                self.put_recipient(address, self.rescheduled(address, percentage, cliff, vesting))
            } else {
                self
            },
            Call::Collect { caller, now, paid } => if self.collect_rejection(caller, now) is None
                && paid {
                self.after_collect(caller, self.collectable(caller, now).unwrap() as Balance)
            } else {
                self
            },
            Call::Reconfigure {
                caller,
                now,
                admin,
                start,
                percentage,
                cliff,
                vesting,
            } => if self.config_rejection(caller, now, start, percentage, cliff, vesting)
                is None {
                self.reconfigured(admin, start, percentage, cliff, vesting)
            } else {
                self
            },
            Call::AddSubAdmin { caller, address } => if self.add_sub_admin_rejection(
                caller,
                address,
            ) is None {
                self.after_add_sub_admin(address)
            } else {
                self
            },
            Call::RemoveSubAdmin { caller, address } => if self.remove_sub_admin_rejection(
                caller,
                address,
            ) is None {
                self.after_remove_sub_admin(address)
            } else {
                self
            },
        }
    }

    /// Whether `call` is within what the operations are meant for: a grant
    /// that is admitted leaves the record's total a balance, and a subtraction
    /// that is admitted takes no more than the record is still owed.
    pub open spec fn regular(self, call: Call) -> bool {
        match call {
            Call::Grant {
                caller,
                now,
                escrow_balance,
                address,
                amount,
                percentage,
                cliff,
                vesting,
            } => self.grant_rejection(
                caller,
                now,
                escrow_balance,
                address,
                amount,
                percentage,
                cliff,
                vesting,
            ) is None ==> self.recipient_or_default(address).total_amount + amount <= u128::MAX,
            Call::Subtract { caller, now, address, amount } => self.subtract_rejection(
                caller,
                now,
                address,
                amount,
            ) is None ==> amount <= self.recipient_or_default(address).owed(),
            _ => true,
        }
    }

    /// The state that `calls` leave, made one after the other.
    pub open spec fn after_all(self, calls: Seq<Call>) -> AirdropView
        decreases calls.len(),
    {
        if calls.len() == 0 {
            self
        } else {
            self.after_all(calls.drop_last()).after(calls.last())
        }
    }

    /// Whether each of `calls` is regular in the state that it meets.
    pub open spec fn all_regular(self, calls: Seq<Call>) -> bool
        decreases calls.len(),
    {
        calls.len() > 0 ==> self.all_regular(calls.drop_last()) && self.after_all(
            calls.drop_last(),
        ).regular(calls.last())
    }

    /// A new ledger is well-formed and balanced.
    pub proof fn lemma_initial_balanced(
        admin: AccountId,
        token: AccountId,
        start: Timestamp,
        percentage: u8,
        cliff: Timestamp,
        vesting: Timestamp,
    )
        requires
            schedule_ok(start, percentage, cliff, vesting),
        ensures
            AirdropView::initial(admin, token, start, percentage, cliff, vesting).wf(),
            AirdropView::initial(admin, token, start, percentage, cliff, vesting).balanced(),
            AirdropView::initial(
                admin,
                token,
                start,
                percentage,
                cliff,
                vesting,
            ).shaped_recipients(),
    {
    }

    /// A grant keeps a ledger well-formed, and balanced if it was, where the
    /// sums are balances and the schedule, if a part of it is given, has a valid
    /// shape.
    pub proof fn lemma_grant_keeps(
        self,
        address: AccountId,
        amount: Balance,
        percentage: Option<u8>,
        cliff: Option<Timestamp>,
        vesting: Option<Timestamp>,
    )
        requires
            self.wf(),
            self.config.to_be_collected + amount <= u128::MAX,
            self.recipient_or_default(address).total_amount + amount <= u128::MAX,
            percentage is Some || cliff is Some || vesting is Some ==> ({
                let after = self.rescheduled(address, percentage, cliff, vesting);
                shape_ok(
                    after.collectable_at_tge_percentage,
                    after.cliff_duration,
                    after.vesting_duration,
                )
            }),
        ensures
            self.after_grant(address, amount, percentage, cliff, vesting).wf(),
            self.balanced() ==> self.after_grant(
                address,
                amount,
                percentage,
                cliff,
                vesting,
            ).balanced(),
            self.shaped_recipients() ==> self.after_grant(
                address,
                amount,
                percentage,
                cliff,
                vesting,
            ).shaped_recipients(),
    {
        let record = self.granted(address, amount, percentage, cliff, vesting);
        self.lemma_put_recipient(address, record);
        if self.holds(address) {
            assert(self.recipients[self.index_of(address)].1 == self.recipient_or_default(address));
        }
        self.lemma_put_keeps(address, record, |r: Recipient| r.collectable_at_tge_percentage <= 100);
        if self.shaped_recipients() {
            self.lemma_put_keeps(
                address,
                record,
                |r: Recipient|
                    shape_ok(r.collectable_at_tge_percentage, r.cliff_duration, r.vesting_duration),
            );
        }
        if self.balanced() {
            self.lemma_put_keeps(address, record, |r: Recipient| r.collected <= r.total_amount);
        }
    }

    /// A subtraction of no more than the record's total keeps a ledger
    /// well-formed, and balanced if it was and the amount is no more than the
    /// record is owed.
    pub proof fn lemma_subtract_keeps(self, address: AccountId, amount: Balance)
        requires
            self.wf(),
            self.recipient(address) matches Some(before) && amount <= before.total_amount,
        ensures
            self.after_subtract(address, amount).wf(),
            self.balanced() && amount <= self.recipient_or_default(address).owed()
                ==> self.after_subtract(address, amount).balanced(),
            self.shaped_recipients() ==> self.after_subtract(address, amount).shaped_recipients(),
    {
        let record = self.subtracted(address, amount);
        self.lemma_put_recipient(address, record);
        self.lemma_put_same_schedule(address, record);
        if self.balanced() && amount <= self.recipient_or_default(address).owed() {
            self.lemma_put_keeps(address, record, |r: Recipient| r.collected <= r.total_amount);
            lemma_owed_within_sum(self.recipients, self.index_of(address));
        }
    }

    /// A valid new schedule for a record keeps a ledger well-formed, and
    /// balanced if it was.
    pub proof fn lemma_reschedule_keeps(
        self,
        address: AccountId,
        percentage: Option<u8>,
        cliff: Option<Timestamp>,
        vesting: Option<Timestamp>,
    )
        requires
            self.wf(),
            self.recipient(address) is Some,
            ({
                let after = self.rescheduled(address, percentage, cliff, vesting);
                shape_ok(
                    after.collectable_at_tge_percentage,
                    after.cliff_duration,
                    after.vesting_duration,
                )
            }),
        ensures
            self.put_recipient(
                address,
                self.rescheduled(address, percentage, cliff, vesting),
            ).wf(),
            self.balanced() ==> self.put_recipient(
                address,
                self.rescheduled(address, percentage, cliff, vesting),
            ).balanced(),
            self.shaped_recipients() ==> self.put_recipient(
                address,
                self.rescheduled(address, percentage, cliff, vesting),
            ).shaped_recipients(),
    {
        let record = self.rescheduled(address, percentage, cliff, vesting);
        self.lemma_put_recipient(address, record);
        self.lemma_put_keeps(address, record, |r: Recipient| r.collectable_at_tge_percentage <= 100);
        if self.shaped_recipients() {
            self.lemma_put_keeps(
                address,
                record,
                |r: Recipient|
                    shape_ok(r.collectable_at_tge_percentage, r.cliff_duration, r.vesting_duration),
            );
        }
        if self.balanced() {
            assert(self.recipients[self.index_of(address)].1 == self.recipient_or_default(address));
            self.lemma_put_keeps(address, record, |r: Recipient| r.collected <= r.total_amount);
        }
    }

    /// A withdrawal of what a recipient can withdraw keeps a ledger
    /// well-formed, and balanced if it was; in a balanced ledger neither the
    /// record's withdrawals nor the aggregate run into their limits.
    pub proof fn lemma_collect_keeps(self, address: AccountId, now: Timestamp, amount: Balance)
        requires
            self.wf(),
            self.collectable(address, now) == Some(amount as int),
        ensures
            self.after_collect(address, amount).wf(),
            self.balanced() ==> self.after_collect(address, amount).balanced(),
            self.balanced() ==> self.recipient_or_default(address).collected + amount
                <= self.recipient_or_default(address).total_amount && amount
                <= self.config.to_be_collected,
            self.shaped_recipients() ==> self.after_collect(address, amount).shaped_recipients(),
    {
        let before = self.recipient_or_default(address);
        let record = self.collected(address, amount);
        self.lemma_put_recipient(address, record);
        self.lemma_put_same_schedule(address, record);
        if self.balanced() {
            let i = self.index_of(address);
            lemma_owed_within_sum(self.recipients, i);
            assert(before.unlocked_at(self.config.start, now) <= before.total_amount);
            self.lemma_put_keeps(address, record, |r: Recipient| r.collected <= r.total_amount);
        }
    }

    /// New settings with a valid default schedule keep a ledger well-formed,
    /// and balanced if it was.
    pub proof fn lemma_reconfigure_keeps(
        self,
        admin: Option<AccountId>,
        start: Option<Timestamp>,
        percentage: Option<u8>,
        cliff: Option<Timestamp>,
        vesting: Option<Timestamp>,
    )
        requires
            self.wf(),
            ({
                let after = self.reconfigured(admin, start, percentage, cliff, vesting);
                schedule_ok(
                    after.config.start,
                    after.config.default_collectable_at_tge_percentage,
                    after.config.default_cliff_duration,
                    after.config.default_vesting_duration,
                )
            }),
        ensures
            self.reconfigured(admin, start, percentage, cliff, vesting).wf(),
            self.balanced() ==> self.reconfigured(
                admin,
                start,
                percentage,
                cliff,
                vesting,
            ).balanced(),
            self.shaped_recipients() ==> self.reconfigured(
                admin,
                start,
                percentage,
                cliff,
                vesting,
            ).shaped_recipients(),
    {
    }

    /// An address is a sub-admin exactly when it stands in the list of
    /// sub-admins.
    pub proof fn lemma_sub_admin_listed(self, address: AccountId)
        ensures
            self.is_sub_admin(address) <==> exists|i: int|
                0 <= i < self.config.sub_admins.len() && self.config.sub_admins[i] == address,
    {
    }

    /// Once an address that was no sub-admin is added, the sub-admins are
    /// that address and those that were. The ledger stays well-formed, and
    /// balanced if it was.
    pub proof fn lemma_add_sub_admin(self, address: AccountId, other: AccountId)
        requires
            self.wf(),
            !self.is_sub_admin(address),
        ensures
            self.after_add_sub_admin(address).wf(),
            self.after_add_sub_admin(address).is_sub_admin(other) <==> self.is_sub_admin(other)
                || other == address,
            self.balanced() ==> self.after_add_sub_admin(address).balanced(),
    {
        let before = self.config.sub_admins;
        let after = before.push(address);
        if self.is_sub_admin(other) {
            let i = before.index_of(other);
            assert(after[i] == other);
        }
        assert(after[before.len() as int] == address);
    }

    /// Once a sub-admin is removed, the sub-admins are those that were,
    /// without that address. The ledger stays well-formed, and balanced if it
    /// was.
    pub proof fn lemma_remove_sub_admin(self, address: AccountId, other: AccountId)
        requires
            self.wf(),
            self.is_sub_admin(address),
        ensures
            self.after_remove_sub_admin(address).wf(),
            self.after_remove_sub_admin(address).is_sub_admin(other) <==> self.is_sub_admin(other)
                && other != address,
            self.balanced() ==> self.after_remove_sub_admin(address).balanced(),
    {
        let before = self.config.sub_admins;
        let at = before.index_of(address);
        let after = before.remove(at);
        if self.is_sub_admin(other) && other != address {
            let i = before.index_of(other);
            if i < at {
                assert(after[i] == other);
            } else {
                assert(after[i - 1] == other);
            }
        }
        if after.contains(other) {
            let j = after.index_of(other);
            if j < at {
                assert(before[j] == other);
            } else {
                assert(before[j + 1] == other);
            }
        }
    }

    /// A regular call keeps a ledger well-formed, and balanced if it was.
    pub proof fn lemma_call_keeps(self, call: Call)
        requires
            self.wf(),
            self.regular(call),
        ensures
            self.after(call).wf(),
            self.balanced() ==> self.after(call).balanced(),
            self.shaped_recipients() ==> self.after(call).shaped_recipients(),
    {
        match call {
            Call::Grant {
                caller,
                now,
                escrow_balance,
                address,
                amount,
                percentage,
                cliff,
                vesting,
            } => {
                if self.grant_rejection(
                    caller,
                    now,
                    escrow_balance,
                    address,
                    amount,
                    percentage,
                    cliff,
                    vesting,
                ) is None {
                    self.lemma_grant_keeps(address, amount, percentage, cliff, vesting);
                }
            },
            Call::Subtract { caller, now, address, amount } => {
                if self.subtract_rejection(caller, now, address, amount) is None {
                    self.lemma_subtract_keeps(address, amount);
                }
            },
            Call::Reschedule { caller, now, address, percentage, cliff, vesting } => {
                if self.reschedule_rejection(caller, now, address, percentage, cliff, vesting)
                    is None {
                    self.lemma_reschedule_keeps(address, percentage, cliff, vesting);
                }
            },
            Call::Collect { caller, now, paid } => {
                if self.collect_rejection(caller, now) is None && paid {
                    let record = self.recipient_or_default(caller);
                    assert(self.recipients[self.index_of(caller)].1 == record);
                    lemma_tge_within_total(record);
                    self.lemma_collect_keeps(
                        caller,
                        now,
                        self.collectable(caller, now).unwrap() as Balance,
                    );
                }
            },
            Call::Reconfigure { caller, now, admin, start, percentage, cliff, vesting } => {
                if self.config_rejection(caller, now, start, percentage, cliff, vesting) is None {
                    self.lemma_reconfigure_keeps(admin, start, percentage, cliff, vesting);
                }
            },
            Call::AddSubAdmin { caller, address } => {
                if self.add_sub_admin_rejection(caller, address) is None {
                    self.lemma_add_sub_admin(address, address);
                }
            },
            Call::RemoveSubAdmin { caller, address } => {
                if self.remove_sub_admin_rejection(caller, address) is None {
                    self.lemma_remove_sub_admin(address, address);
                }
            },
        }
    }

    /// At all times the aggregate that a ledger owes is the sum of what its
    /// recipients are owed, and no recipient has withdrawn more than their
    /// total: a new ledger is well-formed and balanced, and so is the ledger
    /// that any sequence of regular calls makes of it.
    pub proof fn lemma_balanced_at_all_times(
        admin: AccountId,
        token: AccountId,
        start: Timestamp,
        percentage: u8,
        cliff: Timestamp,
        vesting: Timestamp,
        calls: Seq<Call>,
    )
        requires
            schedule_ok(start, percentage, cliff, vesting),
            AirdropView::initial(admin, token, start, percentage, cliff, vesting).all_regular(
                calls,
            ),
        ensures
            AirdropView::initial(admin, token, start, percentage, cliff, vesting).after_all(
                calls,
            ).wf(),
            AirdropView::initial(admin, token, start, percentage, cliff, vesting).after_all(
                calls,
            ).balanced(),
            AirdropView::initial(admin, token, start, percentage, cliff, vesting).after_all(
                calls,
            ).config.to_be_collected == sum_owed(
                AirdropView::initial(admin, token, start, percentage, cliff, vesting).after_all(
                    calls,
                ).recipients,
            ),
        decreases calls.len(),
    {
        let initial = AirdropView::initial(admin, token, start, percentage, cliff, vesting);
        if calls.len() == 0 {
            AirdropView::lemma_initial_balanced(admin, token, start, percentage, cliff, vesting);
        } else {
            AirdropView::lemma_balanced_at_all_times(
                admin,
                token,
                start,
                percentage,
                cliff,
                vesting,
                calls.drop_last(),
            );
            initial.after_all(calls.drop_last()).lemma_call_keeps(calls.last());
        }
    }

    /// At all times the list of sub-admins names no address twice, so that it
    /// holds exactly the addresses that are sub-admins, each once.
    pub proof fn lemma_sub_admins_distinct_at_all_times(
        admin: AccountId,
        token: AccountId,
        start: Timestamp,
        percentage: u8,
        cliff: Timestamp,
        vesting: Timestamp,
        calls: Seq<Call>,
        address: AccountId,
    )
        requires
            schedule_ok(start, percentage, cliff, vesting),
            AirdropView::initial(admin, token, start, percentage, cliff, vesting).all_regular(
                calls,
            ),
        ensures
            ({
                let state = AirdropView::initial(
                    admin,
                    token,
                    start,
                    percentage,
                    cliff,
                    vesting,
                ).after_all(calls);
                &&& state.config.sub_admins.no_duplicates()
                &&& state.is_sub_admin(address) <==> state.config.sub_admins.to_set().contains(
                    address,
                )
            }),
    {
        AirdropView::lemma_balanced_at_all_times(
            admin,
            token,
            start,
            percentage,
            cliff,
            vesting,
            calls,
        );
    }

    /// What a recipient can withdraw never shrinks as time passes.
    pub proof fn lemma_collectable_never_shrinks(
        self,
        address: AccountId,
        earlier: Timestamp,
        later: Timestamp,
    )
        requires
            self.wf(),
            earlier <= later,
        ensures
            self.collectable(address, earlier) matches Some(before) ==> self.collectable(
                address,
                later,
            ) matches Some(after) && before <= after,
    {
        if self.holds(address) {
            let record = self.recipients[self.index_of(address)].1;
            lemma_collectable_monotonic(record, self.config.start, earlier, later);
        }
    }
}

} // verus!
