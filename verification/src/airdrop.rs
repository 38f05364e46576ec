//! The ledger and its operations.

use crate::account::AccountId;
use crate::errors::{AzAirdropError, ErrorView, RECIPIENT};
use crate::escrow::TokenCall;
use crate::recipient::{Balance, Config, Recipient, RecipientAdd, RecipientSubtract, Timestamp};
use crate::schedule::{schedule_rejection, validate_airdrop_calculation_variables};
use crate::laws::Call;
use crate::ledger::lemma_sum_owed_prefix;
use crate::state::{
    distinct_addresses, given_or, none_overdrawn, percentages_ok, sum_owed, AirdropView,
    ConfigView, AIRDROP_HAS_STARTED, ALREADY_SUB_ADMIN, AMOUNT_EXCEEDS_TOTAL, AMOUNT_IS_ZERO,
    AMOUNT_OVERFLOWS, INSUFFICIENT_BALANCE, NOT_SUB_ADMIN, OWED_WHEN_CHANGING_START,
    START_NOT_IN_FUTURE,
};
use vstd::prelude::*;

verus! {

/// A vesting airdrop: who administers it, when its window opens, whom it has
/// granted what, and how much it still owes in all.
///
/// The contracts speak of a ledger through its view. Every ledger that
/// [`AzAirdrop::new`] or [`AzAirdrop::restore`] returns is well-formed, and
/// every operation takes a well-formed ledger and leaves one.
pub struct AzAirdrop {
    admin: AccountId,
    sub_admins: Vec<AccountId>,
    token: AccountId,
    to_be_collected: Balance,
    start: Timestamp,
    recipients: Vec<(AccountId, Recipient)>,
    default_collectable_at_tge_percentage: u8,
    default_cliff_duration: Timestamp,
    default_vesting_duration: Timestamp,
}

impl View for AzAirdrop {
    type V = AirdropView;

    closed spec fn view(&self) -> AirdropView {
        AirdropView {
            config: ConfigView {
                admin: self.admin,
                sub_admins: self.sub_admins@,
                token: self.token,
                to_be_collected: self.to_be_collected,
                start: self.start,
                default_collectable_at_tge_percentage: self.default_collectable_at_tge_percentage,
                default_cliff_duration: self.default_cliff_duration,
                default_vesting_duration: self.default_vesting_duration,
            },
            recipients: self.recipients@,
        }
    }
}

/// The value that is given, and `current` where none is.
fn merged<T>(given: Option<T>, current: T) -> (value: T)
    ensures
        value == given_or(given, current),
{
    match given {
        Some(value) => value,
        None => current,
    }
}

/// The first place in `list` at which `address` stands.
fn position(list: &Vec<AccountId>, address: AccountId) -> (place: Option<usize>)
    ensures
        match place {
            Some(i) => i < list.len() && list[i as int] == address && forall|j: int|
                0 <= j < i ==> list[j] != address,
            None => !list@.contains(address),
        },
{
    let mut i: usize = 0;
    while i < list.len()
        invariant
            i <= list.len(),
            forall|j: int| 0 <= j < i ==> list[j] != address,
        decreases list.len() - i,
    {
        if list[i] == address {
            return Some(i);
        }
        i = i + 1;
    }
    None
}

/// Whether no address stands twice in `list`.
fn all_distinct(list: &Vec<AccountId>) -> (distinct: bool)
    ensures
        distinct == list@.no_duplicates(),
{
    let mut i: usize = 0;
    while i < list.len()
        invariant
            i <= list.len(),
            forall|a: int, b: int| 0 <= a < b < i ==> list[a] != list[b],
        decreases list.len() - i,
    {
        let mut j: usize = 0;
        while j < i
            invariant
                j <= i < list.len(),
                forall|a: int| 0 <= a < j ==> list[a] != list[i as int],
            decreases i - j,
        {
            if list[j] == list[i] {
                return false;
            }
            j = j + 1;
        }
        i = i + 1;
    }
    true
}

/// Whether no address has two entries.
fn entries_distinct(entries: &Vec<(AccountId, Recipient)>) -> (distinct: bool)
    ensures
        distinct == distinct_addresses(entries@),
{
    let mut i: usize = 0;
    while i < entries.len()
        invariant
            i <= entries.len(),
            forall|a: int, b: int|
                0 <= a < b < i ==> (#[trigger] entries@[a]).0 != (#[trigger] entries@[b]).0,
        decreases entries.len() - i,
    {
        let mut j: usize = 0;
        while j < i
            invariant
                j <= i < entries.len(),
                forall|a: int| 0 <= a < j ==> (#[trigger] entries@[a]).0 != entries@[i as int].0,
            decreases i - j,
        {
            if entries[j].0 == entries[i].0 {
                return false;
            }
            j = j + 1;
        }
        i = i + 1;
    }
    true
}

/// Whether no entry unlocks more than all of its total at the start.
fn entries_within_percentage(entries: &Vec<(AccountId, Recipient)>) -> (valid: bool)
    ensures
        valid == percentages_ok(entries@),
{
    let mut i: usize = 0;
    while i < entries.len()
        invariant
            i <= entries.len(),
            forall|a: int|
                0 <= a < i ==> (#[trigger] entries@[a]).1.collectable_at_tge_percentage <= 100,
        decreases entries.len() - i,
    {
        if entries[i].1.collectable_at_tge_percentage > 100 {
            return false;
        }
        i = i + 1;
    }
    true
}

impl AzAirdrop {
    /// A ledger for `token` with `caller` as its admin, no sub-admins and no
    /// recipients, if the default schedule is valid for `start`.
    pub fn new(
        caller: AccountId,
        token: AccountId,
        start: Timestamp,
        default_collectable_at_tge_percentage: u8,
        default_cliff_duration: Timestamp,
        default_vesting_duration: Timestamp,
    ) -> (r: Result<AzAirdrop, AzAirdropError>)
        ensures
            match schedule_rejection(
                start,
                default_collectable_at_tge_percentage,
                default_cliff_duration,
                default_vesting_duration,
            ) {
                Some(reason) => r matches Err(e) && e@ == ErrorView::UnprocessableEntity(reason),
                None => r matches Ok(airdrop) && airdrop@ == AirdropView::initial(
                    caller,
                    token,
                    start,
                    default_collectable_at_tge_percentage,
                    default_cliff_duration,
                    default_vesting_duration,
                ) && airdrop@.wf() && airdrop@.balanced() && airdrop@.shaped_recipients(),
            },
    {
        match validate_airdrop_calculation_variables(
            start,
            default_collectable_at_tge_percentage,
            default_cliff_duration,
            default_vesting_duration,
        ) {
            Err(e) => Err(e),
            Ok(()) => Ok(
                AzAirdrop {
                    admin: caller,
                    sub_admins: Vec::new(),
                    token,
                    to_be_collected: 0,
                    start,
                    recipients: Vec::new(),
                    default_collectable_at_tge_percentage,
                    default_cliff_duration,
                    default_vesting_duration,
                },
            ),
        }
    }

    /// The ledger that holds `config` and `recipients`, as [`AzAirdrop::config`]
    /// and [`AzAirdrop::recipients`] hand them out, if they are what a ledger
    /// can hold: no sub-admin listed twice, no address with two records, no
    /// record that unlocks more than all of its total at the start, and a
    /// default schedule that is valid for the start.
    pub fn restore(config: Config, recipients: Vec<(AccountId, Recipient)>) -> (r: Option<
        AzAirdrop,
    >)
        ensures
            match r {
                Some(airdrop) => airdrop@ == (AirdropView {
                    config: config@,
                    recipients: recipients@,
                }) && airdrop@.wf(),
                None => !(AirdropView { config: config@, recipients: recipients@ }).wf(),
            },
    {
        let defaults_valid = validate_airdrop_calculation_variables(
            config.start,
            config.default_collectable_at_tge_percentage,
            config.default_cliff_duration,
            config.default_vesting_duration,
        ).is_ok();
        if defaults_valid && all_distinct(&config.sub_admins) && entries_distinct(&recipients)
            && entries_within_percentage(&recipients) {
            Some(
                AzAirdrop {
                    admin: config.admin,
                    sub_admins: config.sub_admins,
                    token: config.token,
                    to_be_collected: config.to_be_collected,
                    start: config.start,
                    recipients,
                    default_collectable_at_tge_percentage:
                        config.default_collectable_at_tge_percentage,
                    default_cliff_duration: config.default_cliff_duration,
                    default_vesting_duration: config.default_vesting_duration,
                },
            )
        } else {
            None
        }
    }

    /// The addresses that were granted anything, each with its record, in
    /// the order in which they were first granted anything.
    pub fn recipients(&self) -> (entries: Vec<(AccountId, Recipient)>)
        ensures
            entries@ == self@.recipients,
    {
        let mut entries: Vec<(AccountId, Recipient)> = Vec::new();
        let mut i: usize = 0;
        while i < self.recipients.len()
            invariant
                i <= self.recipients.len(),
                entries@ == self.recipients@.take(i as int),
            decreases self.recipients.len() - i,
        {
            entries.push(self.recipients[i]);
            i = i + 1;
        }
        entries
    }

    /// Whether the ledger is balanced: no recipient has withdrawn more than
    /// their total, and the aggregate owed is the sum of what the recipients
    /// are owed.
    pub fn is_balanced(&self) -> (balanced: bool)
        ensures
            balanced == self@.balanced(),
    {
        let mut sum: Balance = 0;
        let mut i: usize = 0;
        while i < self.recipients.len()
            invariant
                i <= self.recipients.len(),
                none_overdrawn(self.recipients@.take(i as int)),
                sum == sum_owed(self.recipients@.take(i as int)),
            decreases self.recipients.len() - i,
        {
            let record = self.recipients[i].1;
            let ghost next = self.recipients@.take(i + 1);
            assert(next.drop_last() =~= self.recipients@.take(i as int));
            assert(next.last() == self.recipients@[i as int]);
            if record.collected > record.total_amount {
                return false;
            }
            sum = match sum.checked_add(record.total_amount - record.collected) {
                Some(sum) => sum,
                None => {
                    proof {
                        if none_overdrawn(self.recipients@) {
                            lemma_sum_owed_prefix(self.recipients@, i + 1);
                        }
                    }
                    return false;
                },
            };
            i = i + 1;
        }
        assert(self.recipients@.take(i as int) =~= self.recipients@);
        sum == self.to_be_collected
    }

    /// The ledger's settings.
    pub fn config(&self) -> (config: Config)
        ensures
            config@ == self@.config,
    {
        Config {
            admin: self.admin,
            sub_admins: self.sub_admins.clone(),
            token: self.token,
            to_be_collected: self.to_be_collected,
            start: self.start,
            default_collectable_at_tge_percentage: self.default_collectable_at_tge_percentage,
            default_cliff_duration: self.default_cliff_duration,
            default_vesting_duration: self.default_vesting_duration,
        }
    }

    /// Changes the admin, the start and the default schedule, each where a
    /// value is given. Only the admin may. A new start must lie after `now`
    /// and is refused while anything is owed; the schedule that results from
    /// the given and the current values must be valid for the start that
    /// results. A refused change leaves the ledger as it was.
    pub fn update_config(
        &mut self,
        caller: AccountId,
        now: Timestamp,
        admin: Option<AccountId>,
        start: Option<Timestamp>,
        default_collectable_at_tge_percentage: Option<u8>,
        default_cliff_duration: Option<Timestamp>,
        default_vesting_duration: Option<Timestamp>,
    ) -> (r: Result<(), AzAirdropError>)
        requires
            old(self)@.wf(),
        ensures
            final(self)@.wf(),
            old(self)@.balanced() ==> final(self)@.balanced(),
            old(self)@.shaped_recipients() ==> final(self)@.shaped_recipients(),
            match old(self)@.config_rejection(
                caller,
                now,
                start,
                default_collectable_at_tge_percentage,
                default_cliff_duration,
                default_vesting_duration,
            ) {
                Some(why) => r matches Err(e) && e@ == why && final(self)@ == old(self)@,
                None => r is Ok && final(self)@ == old(self)@.reconfigured(
                    admin,
                    start,
                    default_collectable_at_tge_percentage,
                    default_cliff_duration,
                    default_vesting_duration,
                ),
            },
            final(self)@ == old(self)@.after(
                Call::Reconfigure {
                    caller,
                    now,
                    admin,
                    start,
                    percentage: default_collectable_at_tge_percentage,
                    cliff: default_cliff_duration,
                    vesting: default_vesting_duration,
                },
            ),
    {
        if let Err(e) = Self::authorise(caller, self.admin) {
            return Err(e);
        }
        if let Some(new_start) = start {
            if new_start <= now {
                return Err(AzAirdropError::unprocessable(START_NOT_IN_FUTURE));
            }
            if self.to_be_collected != 0 {
                return Err(AzAirdropError::unprocessable(OWED_WHEN_CHANGING_START));
            }
        }
        let new_start = merged(start, self.start);
        let new_percentage = merged(
            default_collectable_at_tge_percentage,
            self.default_collectable_at_tge_percentage,
        );
        let new_cliff = merged(default_cliff_duration, self.default_cliff_duration);
        let new_vesting = merged(default_vesting_duration, self.default_vesting_duration);
        if let Err(e) = validate_airdrop_calculation_variables(
            new_start,
            new_percentage,
            new_cliff,
            new_vesting,
        ) {
            return Err(e);
        }
        self.admin = merged(admin, self.admin);
        self.start = new_start;
        self.default_collectable_at_tge_percentage = new_percentage;
        self.default_cliff_duration = new_cliff;
        self.default_vesting_duration = new_vesting;
        assert(self@.recipients == old(self)@.recipients);
        Ok(())
    }

    /// The record kept for `address`.
    pub fn show(&self, address: AccountId) -> (r: Result<Recipient, AzAirdropError>)
        requires
            self@.wf(),
        ensures
            match self@.recipient(address) {
                Some(record) => r == Ok::<Recipient, AzAirdropError>(record),
                None => r matches Err(e) && e@ == ErrorView::NotFound(RECIPIENT@),
            },
    {
        match self.find(address) {
            Some(i) => Ok(self.recipients[i].1),
            None => Err(AzAirdropError::not_found(RECIPIENT)),
        }
    }

    /// What `address` can withdraw at `timestamp`.
    pub fn collectable_amount(&self, address: AccountId, timestamp: Timestamp) -> (r: Result<
        Balance,
        AzAirdropError,
    >)
        requires
            self@.wf(),
        ensures
            match self@.collectable(address, timestamp) {
                Some(amount) => r matches Ok(a) && a == amount,
                None => r matches Err(e) && e@ == ErrorView::NotFound(RECIPIENT@),
            },
    {
        match self.find(address) {
            Some(i) => Ok(self.recipients[i].1.collectable_amount(self.start, timestamp)),
            None => Err(AzAirdropError::not_found(RECIPIENT)),
        }
    }

    /// Grants `amount` to `address`, which gets a record with the default
    /// schedule if it has none, and sets each part of the record's schedule
    /// that is given. The admin and the sub-admins may, before the window
    /// opens, as long as `escrow_balance`, the tokens held in escrow, covers
    /// what is owed afterwards; where a part of the schedule is given, the
    /// schedule that results must be valid for the start. Returns the record
    /// and the event to publish. A refused grant leaves the ledger as it was.
    ///
    /// The record's total with the amount added has to be a balance.
    pub fn recipient_add(
        &mut self,
        caller: AccountId,
        now: Timestamp,
        escrow_balance: Balance,
        address: AccountId,
        amount: Balance,
        collectable_at_tge_percentage: Option<u8>,
        cliff_duration: Option<Timestamp>,
        vesting_duration: Option<Timestamp>,
        description: Option<String>,
    ) -> (r: Result<(Recipient, RecipientAdd), AzAirdropError>)
        requires
            old(self)@.wf(),
            old(self)@.grant_rejection(
                caller,
                now,
                escrow_balance,
                address,
                amount,
                collectable_at_tge_percentage,
                cliff_duration,
                vesting_duration,
            ) is None ==> old(self)@.recipient_or_default(address).total_amount + amount
                <= u128::MAX,
        ensures
            final(self)@.wf(),
            old(self)@.balanced() ==> final(self)@.balanced(),
            old(self)@.shaped_recipients() ==> final(self)@.shaped_recipients(),
            match old(self)@.grant_rejection(
                caller,
                now,
                escrow_balance,
                address,
                amount,
                collectable_at_tge_percentage,
                cliff_duration,
                vesting_duration,
            ) {
                Some(why) => r matches Err(e) && e@ == why && final(self)@ == old(self)@,
                None => r matches Ok((record, event)) && record == old(self)@.granted(
                    address,
                    amount,
                    collectable_at_tge_percentage,
                    cliff_duration,
                    vesting_duration,
                ) && event == (RecipientAdd { address, amount, caller, description })
                    && final(self)@ == old(self)@.after_grant(
                    address,
                    amount,
                    collectable_at_tge_percentage,
                    cliff_duration,
                    vesting_duration,
                ),
            },
            final(self)@ == old(self)@.after(
                Call::Grant {
                    caller,
                    now,
                    escrow_balance,
                    address,
                    amount,
                    percentage: collectable_at_tge_percentage,
                    cliff: cliff_duration,
                    vesting: vesting_duration,
                },
            ),
            forall|other: AccountId|
                other != address ==> #[trigger] final(self)@.recipient(other)
                    == old(self)@.recipient(other),
    {
        if let Err(e) = self.check_edit(caller, now) {
            return Err(e);
        }
        let new_to_be_collected = match amount.checked_add(self.to_be_collected) {
            Some(sum) => sum,
            None => {
                return Err(AzAirdropError::unprocessable(AMOUNT_OVERFLOWS));
            },
        };
        if new_to_be_collected > escrow_balance {
            return Err(AzAirdropError::unprocessable(INSUFFICIENT_BALANCE));
        }
        let slot = self.find(address);
        let before = match slot {
            Some(i) => self.recipients[i].1,
            None => Recipient {
                total_amount: 0,
                collected: 0,
                collectable_at_tge_percentage: self.default_collectable_at_tge_percentage,
                cliff_duration: self.default_cliff_duration,
                vesting_duration: self.default_vesting_duration,
            },
        };
        let scheduled = Recipient {
            collectable_at_tge_percentage: merged(
                collectable_at_tge_percentage,
                before.collectable_at_tge_percentage,
            ),
            cliff_duration: merged(cliff_duration, before.cliff_duration),
            vesting_duration: merged(vesting_duration, before.vesting_duration),
            ..before
        };
        if collectable_at_tge_percentage.is_some() || cliff_duration.is_some()
            || vesting_duration.is_some() {
            if let Err(e) = validate_airdrop_calculation_variables(
                self.start,
                scheduled.collectable_at_tge_percentage,
                scheduled.cliff_duration,
                scheduled.vesting_duration,
            ) {
                return Err(e);
            }
        }
        let record = Recipient { total_amount: scheduled.total_amount + amount, ..scheduled };
        self.store(slot, address, record);
        let ghost stored = self@;
        self.to_be_collected = new_to_be_collected;
        proof {
            assert(self@ == old(self)@.after_grant(
                address,
                amount,
                collectable_at_tge_percentage,
                cliff_duration,
                vesting_duration,
            ));
            old(self)@.lemma_grant_keeps(
                address,
                amount,
                collectable_at_tge_percentage,
                cliff_duration,
                vesting_duration,
            );
            assert forall|other: AccountId| other != address implies #[trigger] self@.recipient(
                other,
            ) == old(self)@.recipient(other) by {
                assert(self@.recipient(other) == stored.recipient(other));
            }
        }
        Ok((record, RecipientAdd { address, amount, caller, description }))
    }

    /// Takes `amount` off what `address` was granted. The admin and the
    /// sub-admins may, before the window opens, up to the record's total. The
    /// aggregate owed goes down by the amount and stops at 0. Returns the
    /// record and the event to publish. A refused subtraction leaves the
    /// ledger as it was.
    pub fn recipient_subtract(
        &mut self,
        caller: AccountId,
        now: Timestamp,
        address: AccountId,
        amount: Balance,
        description: Option<String>,
    ) -> (r: Result<(Recipient, RecipientSubtract), AzAirdropError>)
        requires
            old(self)@.wf(),
        ensures
            final(self)@.wf(),
            old(self)@.balanced() && amount <= old(self)@.recipient_or_default(address).owed()
                ==> final(self)@.balanced(),
            old(self)@.shaped_recipients() ==> final(self)@.shaped_recipients(),
            match old(self)@.subtract_rejection(caller, now, address, amount) {
                Some(why) => r matches Err(e) && e@ == why && final(self)@ == old(self)@,
                None => r matches Ok((record, event)) && record == old(self)@.subtracted(
                    address,
                    amount,
                ) && event == (RecipientSubtract { address, amount, caller, description })
                    && final(self)@ == old(self)@.after_subtract(address, amount),
            },
            final(self)@ == old(self)@.after(Call::Subtract { caller, now, address, amount }),
            forall|other: AccountId|
                other != address ==> #[trigger] final(self)@.recipient(other)
                    == old(self)@.recipient(other),
    {
        if let Err(e) = self.check_edit(caller, now) {
            return Err(e);
        }
        let slot = self.find(address);
        let before = match slot {
            Some(i) => self.recipients[i].1,
            None => {
                return Err(AzAirdropError::not_found(RECIPIENT));
            },
        };
        if amount > before.total_amount {
            return Err(AzAirdropError::unprocessable(AMOUNT_EXCEEDS_TOTAL));
        }
        let record = Recipient { total_amount: before.total_amount - amount, ..before };
        self.store(slot, address, record);
        let ghost stored = self@;
        self.to_be_collected = self.to_be_collected.saturating_sub(amount);
        proof {
            assert(self@ == old(self)@.after_subtract(address, amount));
            old(self)@.lemma_subtract_keeps(address, amount);
            assert forall|other: AccountId| other != address implies #[trigger] self@.recipient(
                other,
            ) == old(self)@.recipient(other) by {
                assert(self@.recipient(other) == stored.recipient(other));
            }
        }
        Ok((record, RecipientSubtract { address, amount, caller, description }))
    }

    /// Changes the schedule of `address`, each part where a value is given.
    /// The admin and the sub-admins may, before the window opens, if the
    /// schedule that results is valid for the start. Returns the record. A
    /// refused change leaves the ledger as it was.
    pub fn update_recipient(
        &mut self,
        caller: AccountId,
        now: Timestamp,
        address: AccountId,
        collectable_at_tge_percentage: Option<u8>,
        cliff_duration: Option<Timestamp>,
        vesting_duration: Option<Timestamp>,
    ) -> (r: Result<Recipient, AzAirdropError>)
        requires
            old(self)@.wf(),
        ensures
            final(self)@.wf(),
            old(self)@.balanced() ==> final(self)@.balanced(),
            old(self)@.shaped_recipients() ==> final(self)@.shaped_recipients(),
            match old(self)@.reschedule_rejection(
                caller,
                now,
                address,
                collectable_at_tge_percentage,
                cliff_duration,
                vesting_duration,
            ) {
                Some(why) => r matches Err(e) && e@ == why && final(self)@ == old(self)@,
                None => r == Ok::<Recipient, AzAirdropError>(
                    old(self)@.rescheduled(
                        address,
                        collectable_at_tge_percentage,
                        cliff_duration,
                        vesting_duration,
                    ),
                ) && final(self)@ == old(self)@.put_recipient(
                    address,
                    old(self)@.rescheduled(
                        address,
                        collectable_at_tge_percentage,
                        cliff_duration,
                        vesting_duration,
                    ),
                ),
            },
            final(self)@ == old(self)@.after(
                Call::Reschedule {
                    caller,
                    now,
                    address,
                    percentage: collectable_at_tge_percentage,
                    cliff: cliff_duration,
                    vesting: vesting_duration,
                },
            ),
            forall|other: AccountId|
                other != address ==> #[trigger] final(self)@.recipient(other)
                    == old(self)@.recipient(other),
    {
        if let Err(e) = self.check_edit(caller, now) {
            return Err(e);
        }
        let slot = self.find(address);
        let before = match slot {
            Some(i) => self.recipients[i].1,
            None => {
                return Err(AzAirdropError::not_found(RECIPIENT));
            },
        };
        let record = Recipient {
            collectable_at_tge_percentage: merged(
                collectable_at_tge_percentage,
                before.collectable_at_tge_percentage,
            ),
            cliff_duration: merged(cliff_duration, before.cliff_duration),
            vesting_duration: merged(vesting_duration, before.vesting_duration),
            ..before
        };
        if let Err(e) = validate_airdrop_calculation_variables(
            self.start,
            record.collectable_at_tge_percentage,
            record.cliff_duration,
            record.vesting_duration,
        ) {
            return Err(e);
        }
        proof {
            self@.lemma_reschedule_keeps(
                address,
                collectable_at_tge_percentage,
                cliff_duration,
                vesting_duration,
            );
        }
        self.store(slot, address, record);
        Ok(record)
    }

    /// The call that pulls `amount` from `from` into escrow. The admin may
    /// pull tokens in, before the window opens. The host makes the call and
    /// reports a failure of it as it is.
    pub fn acquire_token(
        &self,
        caller: AccountId,
        now: Timestamp,
        amount: Balance,
        from: AccountId,
    ) -> (r: Result<TokenCall, AzAirdropError>)
        ensures
            match self@.acquire_rejection(caller, now) {
                Some(why) => r matches Err(e) && e@ == why,
                None => r == Ok::<TokenCall, AzAirdropError>(
                    TokenCall::TransferFrom { from, amount },
                ),
            },
    {
        if let Err(e) = Self::authorise(caller, self.admin) {
            return Err(e);
        }
        if let Err(e) = self.airdrop_has_not_started(now) {
            return Err(e);
        }
        Ok(TokenCall::TransferFrom { from, amount })
    }

    /// The call that pays out to `caller` all that the caller can withdraw
    /// at `now`, if that is anything. The host makes the call and hands the
    /// outcome to [`AzAirdrop::collect`].
    pub fn collect_due(&self, caller: AccountId, now: Timestamp) -> (r: Result<
        TokenCall,
        AzAirdropError,
    >)
        requires
            self@.wf(),
        ensures
            match self@.collect_rejection(caller, now) {
                Some(why) => r matches Err(e) && e@ == why,
                None => r matches Ok(TokenCall::Transfer { to, amount }) && to == caller
                    && self@.collectable(caller, now) == Some(amount as int),
            },
    {
        let amount = match self.collectable_amount(caller, now) {
            Ok(amount) => amount,
            Err(e) => {
                return Err(e);
            },
        };
        if amount == 0 {
            return Err(AzAirdropError::unprocessable(AMOUNT_IS_ZERO));
        }
        Ok(TokenCall::Transfer { to: caller, amount })
    }

    /// Records that `caller` has withdrawn, at `now`, all that was due:
    /// `transfer` is what the token service answered to the call of
    /// [`AzAirdrop::collect_due`]. Where nothing was due the answer is that of
    /// `collect_due` and the ledger stays as it was; where the transfer failed
    /// its error is returned as it is and the ledger stays as it was; else the
    /// caller's withdrawals go up by the amount and the aggregate owed goes
    /// down by it, and the amount is returned.
    pub fn collect(
        &mut self,
        caller: AccountId,
        now: Timestamp,
        transfer: Result<(), AzAirdropError>,
    ) -> (r: Result<Balance, AzAirdropError>)
        requires
            old(self)@.wf(),
        ensures
            final(self)@.wf(),
            old(self)@.balanced() ==> final(self)@.balanced(),
            old(self)@.shaped_recipients() ==> final(self)@.shaped_recipients(),
            match old(self)@.collect_rejection(caller, now) {
                Some(why) => r matches Err(e) && e@ == why && final(self)@ == old(self)@,
                None => match transfer {
                    Err(failure) => r == Err::<Balance, AzAirdropError>(failure) && final(self)@
                        == old(self)@,
                    Ok(_) => r matches Ok(amount) && old(self)@.collectable(caller, now) == Some(
                        amount as int,
                    ) && final(self)@ == old(self)@.after_collect(caller, amount),
                },
            },
            final(self)@ == old(self)@.after(Call::Collect { caller, now, paid: transfer is Ok }),
            forall|other: AccountId|
                other != caller ==> #[trigger] final(self)@.recipient(other)
                    == old(self)@.recipient(other),
    {
        let slot = self.find(caller);
        let before = match slot {
            Some(i) => self.recipients[i].1,
            None => {
                return Err(AzAirdropError::not_found(RECIPIENT));
            },
        };
        let amount = before.collectable_amount(self.start, now);
        if amount == 0 {
            return Err(AzAirdropError::unprocessable(AMOUNT_IS_ZERO));
        }
        if let Err(failure) = transfer {
            return Err(failure);
        }
        let record = Recipient { collected: before.collected.saturating_add(amount), ..before };
        proof {
            self@.lemma_collect_keeps(caller, now, amount);
        }
        self.store(slot, caller, record);
        let ghost stored = self@;
        self.to_be_collected = self.to_be_collected.saturating_sub(amount);
        proof {
            assert(self@ == old(self)@.after_collect(caller, amount));
            assert forall|other: AccountId| other != caller implies #[trigger] self@.recipient(
                other,
            ) == old(self)@.recipient(other) by {
                assert(self@.recipient(other) == stored.recipient(other));
            }
        }
        Ok(amount)
    }

    /// The call that returns to the admin the escrowed tokens that are owed
    /// to nobody: `escrow_balance`, the tokens held in escrow, less the
    /// aggregate owed, if that is anything. The host makes the call and reports
    /// a failure of it as it is.
    pub fn return_spare_tokens(&self, caller: AccountId, escrow_balance: Balance) -> (r: Result<
        TokenCall,
        AzAirdropError,
    >)
        ensures
            match self@.spare_rejection(caller, escrow_balance) {
                Some(why) => r matches Err(e) && e@ == why,
                None => r == Ok::<TokenCall, AzAirdropError>(
                    TokenCall::Transfer { to: caller, amount: self@.spare(escrow_balance) },
                ),
            },
    {
        if let Err(e) = Self::authorise(caller, self.admin) {
            return Err(e);
        }
        let spare_amount = escrow_balance.saturating_sub(self.to_be_collected);
        if spare_amount > 0 {
            Ok(TokenCall::Transfer { to: caller, amount: spare_amount })
        } else {
            Err(AzAirdropError::unprocessable(AMOUNT_IS_ZERO))
        }
    }

    /// Puts `address` behind the other sub-admins. Only the admin may, and
    /// only an address that is no sub-admin yet. Returns the list of
    /// sub-admins. A refused addition leaves the ledger as it was.
    pub fn sub_admins_add(&mut self, caller: AccountId, address: AccountId) -> (r: Result<
        Vec<AccountId>,
        AzAirdropError,
    >)
        requires
            old(self)@.wf(),
        ensures
            final(self)@.wf(),
            old(self)@.balanced() ==> final(self)@.balanced(),
            old(self)@.shaped_recipients() ==> final(self)@.shaped_recipients(),
            match old(self)@.add_sub_admin_rejection(caller, address) {
                Some(why) => r matches Err(e) && e@ == why && final(self)@ == old(self)@,
                None => r matches Ok(list) && list@ == final(self)@.config.sub_admins
                    && final(self)@ == old(self)@.after_add_sub_admin(address),
            },
            final(self)@ == old(self)@.after(Call::AddSubAdmin { caller, address }),
            r is Ok ==> forall|other: AccountId| #[trigger]
                final(self)@.is_sub_admin(other) <==> old(self)@.is_sub_admin(other) || other
                    == address,
    {
        if let Err(e) = Self::authorise(caller, self.admin) {
            return Err(e);
        }
        if self.is_sub_admin(address) {
            return Err(AzAirdropError::unprocessable(ALREADY_SUB_ADMIN));
        }
        self.sub_admins.push(address);
        proof {
            assert(self@.recipients == old(self)@.recipients);
            assert(self@ == old(self)@.after_add_sub_admin(address));
            assert forall|other: AccountId| #[trigger]
                self@.is_sub_admin(other) <==> old(self)@.is_sub_admin(other) || other
                    == address by {
                old(self)@.lemma_add_sub_admin(address, other);
            }
        }
        Ok(self.sub_admins.clone())
    }

    /// Takes `address` out of the sub-admins. Only the admin may, and only an
    /// address that is a sub-admin. Returns the list of sub-admins. A refused
    /// removal leaves the ledger as it was.
    pub fn sub_admins_remove(&mut self, caller: AccountId, address: AccountId) -> (r: Result<
        Vec<AccountId>,
        AzAirdropError,
    >)
        requires
            old(self)@.wf(),
        ensures
            final(self)@.wf(),
            old(self)@.balanced() ==> final(self)@.balanced(),
            old(self)@.shaped_recipients() ==> final(self)@.shaped_recipients(),
            match old(self)@.remove_sub_admin_rejection(caller, address) {
                Some(why) => r matches Err(e) && e@ == why && final(self)@ == old(self)@,
                None => r matches Ok(list) && list@ == final(self)@.config.sub_admins
                    && final(self)@ == old(self)@.after_remove_sub_admin(address),
            },
            final(self)@ == old(self)@.after(Call::RemoveSubAdmin { caller, address }),
            r is Ok ==> forall|other: AccountId| #[trigger]
                final(self)@.is_sub_admin(other) <==> old(self)@.is_sub_admin(other) && other
                    != address,
    {
        if let Err(e) = Self::authorise(caller, self.admin) {
            return Err(e);
        }
        let index = match position(&self.sub_admins, address) {
            Some(index) => index,
            None => {
                return Err(AzAirdropError::unprocessable(NOT_SUB_ADMIN));
            },
        };
        self.sub_admins.remove(index);
        proof {
            assert(old(self)@.config.sub_admins.index_of(address) == index);
            assert(self@.recipients == old(self)@.recipients);
            assert(self@ == old(self)@.after_remove_sub_admin(address));
            assert forall|other: AccountId| #[trigger]
                self@.is_sub_admin(other) <==> old(self)@.is_sub_admin(other) && other
                    != address by {
                old(self)@.lemma_remove_sub_admin(address, other);
            }
        }
        Ok(self.sub_admins.clone())
    }

    /// Whether `address` is on the list of sub-admins.
    pub fn is_sub_admin(&self, address: AccountId) -> (listed: bool)
        ensures
            listed == self@.is_sub_admin(address),
    {
        position(&self.sub_admins, address).is_some()
    }

    /// Admits the admin and the sub-admins.
    pub fn authorise_to_update_recipient(&self, caller: AccountId) -> (r: Result<
        (),
        AzAirdropError,
    >)
        ensures
            r is Ok <==> self@.may_edit_recipients(caller),
            r matches Err(e) ==> e@ == ErrorView::Unauthorised,
    {
        if caller == self.admin || self.is_sub_admin(caller) {
            Ok(())
        } else {
            Err(AzAirdropError::Unauthorised)
        }
    }

    /// Admits the admin and the sub-admins while the window has not opened.
    fn check_edit(&self, caller: AccountId, now: Timestamp) -> (r: Result<(), AzAirdropError>)
        ensures
            match self@.edit_rejection(caller, now) {
                Some(why) => r matches Err(e) && e@ == why,
                None => r is Ok,
            },
    {
        if let Err(e) = self.authorise_to_update_recipient(caller) {
            return Err(e);
        }
        self.airdrop_has_not_started(now)
    }

    /// Where the record of `address` is kept.
    fn find(&self, address: AccountId) -> (slot: Option<usize>)
        requires
            self@.distinct_recipients(),
        ensures
            self@.is_slot_of(slot, address),
    {
        let mut i: usize = 0;
        while i < self.recipients.len()
            invariant
                self@.distinct_recipients(),
                i <= self.recipients.len(),
                forall|j: int| 0 <= j < i ==> (#[trigger] self.recipients@[j]).0 != address,
            decreases self.recipients.len() - i,
        {
            if self.recipients[i].0 == address {
                proof {
                    self@.lemma_found_at(i as int);
                }
                return Some(i);
            }
            i = i + 1;
        }
        None
    }

    /// Keeps `record` for `address`, at `slot` if that is a place and else
    /// behind all others.
    fn store(&mut self, slot: Option<usize>, address: AccountId, record: Recipient)
        requires
            old(self)@.distinct_recipients(),
            old(self)@.is_slot_of(slot, address),
        ensures
            final(self)@ == old(self)@.put_recipient(address, record),
            final(self)@.recipient(address) == Some(record),
            forall|other: AccountId|
                other != address ==> #[trigger] final(self)@.recipient(other)
                    == old(self)@.recipient(other),
    {
        proof {
            let before = old(self)@;
            before.lemma_put_recipient(address, record);
            assert forall|other: AccountId| other != address implies #[trigger] before.put_recipient(
                address,
                record,
            ).recipient(other) == before.recipient(other) by {
                before.lemma_put_recipient_elsewhere(address, record, other);
            }
        }
        match slot {
            Some(i) => {
                self.recipients.set(i, (address, record));
            },
            None => {
                self.recipients.push((address, record));
            },
        }
    }

    /// Admits `received` where it is the `allowed` account.
    pub fn authorise(allowed: AccountId, received: AccountId) -> (r: Result<(), AzAirdropError>)
        ensures
            r is Ok <==> allowed == received,
            r matches Err(e) ==> e@ == ErrorView::Unauthorised,
    {
        if allowed != received {
            return Err(AzAirdropError::Unauthorised);
        }
        Ok(())
    }

    /// Admits any caller while the window has not opened at `now`.
    pub fn airdrop_has_not_started(&self, now: Timestamp) -> (r: Result<(), AzAirdropError>)
        ensures
            r is Ok <==> !self@.started(now),
            r matches Err(e) ==> e@ == ErrorView::UnprocessableEntity(AIRDROP_HAS_STARTED@),
    {
        if now >= self.start {
            return Err(AzAirdropError::unprocessable(AIRDROP_HAS_STARTED));
        }
        Ok(())
    }
}

} // verus!
