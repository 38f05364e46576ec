//! Facts about the recipients' records and the sum of what they are owed.

use crate::account::AccountId;
use crate::recipient::Recipient;
use crate::schedule::shape_ok;
use crate::state::{every_record, none_overdrawn, sum_owed, AirdropView};
use vstd::prelude::*;

verus! {

/// An entry put behind the others adds what it is owed to the sum.
pub proof fn lemma_sum_owed_push(entries: Seq<(AccountId, Recipient)>, entry: (AccountId, Recipient))
    ensures
        sum_owed(entries.push(entry)) == sum_owed(entries) + entry.1.owed(),
{
    assert(entries.push(entry).drop_last() =~= entries);
}

/// An entry put in place of another changes the sum by the difference of
/// what the two are owed.
pub proof fn lemma_sum_owed_update(
    entries: Seq<(AccountId, Recipient)>,
    i: int,
    entry: (AccountId, Recipient),
)
    requires
        0 <= i < entries.len(),
    ensures
        sum_owed(entries.update(i, entry)) == sum_owed(entries) - entries[i].1.owed()
            + entry.1.owed(),
    decreases entries.len(),
{
    let updated = entries.update(i, entry);
    if i == entries.len() - 1 {
        assert(updated.drop_last() =~= entries.drop_last());
    } else {
        assert(updated.drop_last() =~= entries.drop_last().update(i, entry));
        lemma_sum_owed_update(entries.drop_last(), i, entry);
    }
}

/// Where no entry is overdrawn, the sum is not negative and no entry is owed
/// more than the sum.
pub proof fn lemma_owed_within_sum(entries: Seq<(AccountId, Recipient)>, i: int)
    requires
        none_overdrawn(entries),
        0 <= i < entries.len(),
    ensures
        0 <= entries[i].1.owed() <= sum_owed(entries),
    decreases entries.len(),
{
    lemma_sum_owed_not_negative(entries.drop_last());
    if i < entries.len() - 1 {
        lemma_owed_within_sum(entries.drop_last(), i);
    }
}

/// Where no entry is overdrawn, the sum is not negative.
pub proof fn lemma_sum_owed_not_negative(entries: Seq<(AccountId, Recipient)>)
    requires
        none_overdrawn(entries),
    ensures
        0 <= sum_owed(entries),
    decreases entries.len(),
{
    if entries.len() > 0 {
        lemma_sum_owed_not_negative(entries.drop_last());
    }
}

/// Where no entry is overdrawn, the first entries are owed no more than all
/// of them.
pub proof fn lemma_sum_owed_prefix(entries: Seq<(AccountId, Recipient)>, count: int)
    requires
        none_overdrawn(entries),
        0 <= count <= entries.len(),
    ensures
        sum_owed(entries.take(count)) <= sum_owed(entries),
    decreases entries.len(),
{
    if count == entries.len() {
        assert(entries.take(count) =~= entries);
    } else {
        assert(entries.drop_last().take(count) =~= entries.take(count));
        lemma_sum_owed_prefix(entries.drop_last(), count);
    }
}

impl AirdropView {
    /// With distinct addresses, the record at a place is the record kept for
    /// the address at that place.
    pub proof fn lemma_found_at(self, i: int)
        requires
            self.distinct_recipients(),
            0 <= i < self.recipients.len(),
        ensures
            self.holds(self.recipients[i].0),
            self.index_of(self.recipients[i].0) == i,
            self.recipient(self.recipients[i].0) == Some(self.recipients[i].1),
    {
    }

    /// Putting a record keeps the addresses distinct and the settings as they
    /// are, makes the record the one kept for the address, and changes the sum
    /// owed by the difference to what the address was owed before.
    pub proof fn lemma_put_recipient(self, address: AccountId, record: Recipient)
        requires
            self.distinct_recipients(),
        ensures
            self.put_recipient(address, record).distinct_recipients(),
            self.put_recipient(address, record).config == self.config,
            self.put_recipient(address, record).recipient(address) == Some(record),
            self.put_recipient(address, record).owed_total() == self.owed_total() - (
            match self.recipient(address) {
                Some(before) => before.owed(),
                None => 0,
            }) + record.owed(),
    {
        let after = self.put_recipient(address, record);
        if self.holds(address) {
            let i = self.index_of(address);
            lemma_sum_owed_update(self.recipients, i, (address, record));
            assert(after.recipients[i].0 == address);
            after.lemma_found_at(i);
        } else {
            let i = self.recipients.len() as int;
            lemma_sum_owed_push(self.recipients, (address, record));
            assert(after.recipients[i].0 == address);
            after.lemma_found_at(i);
        }
    }

    /// Putting a record of which `holds` is true keeps it true of every
    /// record.
    pub proof fn lemma_put_keeps(
        self,
        address: AccountId,
        record: Recipient,
        holds: spec_fn(Recipient) -> bool,
    )
        requires
            every_record(self.recipients, holds),
            holds(record),
        ensures
            every_record(self.put_recipient(address, record).recipients, holds),
    {
        let after = self.put_recipient(address, record);
        assert forall|i: int| 0 <= i < after.recipients.len() implies holds(
            (#[trigger] after.recipients[i]).1,
        ) by {
            if self.holds(address) {
                if i != self.index_of(address) {
                    assert(after.recipients[i] == self.recipients[i]);
                }
            } else {
                if i < self.recipients.len() {
                    assert(after.recipients[i] == self.recipients[i]);
                }
            }
        }
    }

    /// Putting a record that differs from the one kept for the address in
    /// its amounts alone keeps the percentages in range, and the shapes valid
    /// if they were.
    pub proof fn lemma_put_same_schedule(self, address: AccountId, record: Recipient)
        requires
            self.wf(),
            record.collectable_at_tge_percentage == self.recipient_or_default(
                address,
            ).collectable_at_tge_percentage,
            record.cliff_duration == self.recipient_or_default(address).cliff_duration,
            record.vesting_duration == self.recipient_or_default(address).vesting_duration,
        ensures
            self.put_recipient(address, record).wf(),
            self.shaped_recipients() ==> self.put_recipient(address, record).shaped_recipients(),
    {
        self.lemma_put_recipient(address, record);
        if self.holds(address) {
            assert(self.recipients[self.index_of(address)].1 == self.recipient_or_default(address));
        }
        self.lemma_put_keeps(address, record, |r: Recipient| r.collectable_at_tge_percentage <= 100);
        if self.shaped_recipients() {
            self.lemma_put_keeps(
                address,
                record,
                |r: Recipient|
                    shape_ok(r.collectable_at_tge_percentage, r.cliff_duration, r.vesting_duration),
            );
        }
    }

    /// Putting a record for one address leaves the record of any other as it
    /// is.
    pub proof fn lemma_put_recipient_elsewhere(
        self,
        address: AccountId,
        record: Recipient,
        other: AccountId,
    )
        requires
            self.distinct_recipients(),
            other != address,
        ensures
            self.put_recipient(address, record).recipient(other) == self.recipient(other),
    {
        let after = self.put_recipient(address, record);
        self.lemma_put_recipient(address, record);
        if self.holds(other) {
            let j = self.index_of(other);
            assert(after.recipients[j] == self.recipients[j]);
            after.lemma_found_at(j);
        } else if after.holds(other) {
            let j = after.index_of(other);
            assert(self.recipients[j] == after.recipients[j]);
        }
    }
}

} // verus!
