use vstd::prelude::*;
use vstd::string::StringExecFns;
use crate::routes::subscriptions::SubscriptionRecord;

verus! {

/// Some record of `records` has this id.
pub open spec fn has_id(records: Seq<SubscriptionRecord>, id: u128) -> bool {
    exists|i: int| 0 <= i < records.len() && (#[trigger] records[i]).id == id
}

/// The records after inserting `record`: the id is the only key, so a record
/// whose id is taken is refused and nothing changes. Emails may repeat.
pub open spec fn after_insert(records: Seq<SubscriptionRecord>, record: SubscriptionRecord) -> Seq<
    SubscriptionRecord,
> {
    if has_id(records, record.id) {
        records
    } else {
        records.push(record)
    }
}

/// Subscription records held in memory, in the order they were inserted.
pub struct SubscriptionStore {
    records: Vec<SubscriptionRecord>,
}

impl View for SubscriptionStore {
    type V = Seq<SubscriptionRecord>;

    closed spec fn view(&self) -> Seq<SubscriptionRecord> {
        self.records@
    }
}

impl SubscriptionStore {
    pub fn new() -> (r: SubscriptionStore)
        ensures
            r@ == Seq::<SubscriptionRecord>::empty(),
    {
        SubscriptionStore { records: Vec::new() }
    }

    /// Writes `record` whole, or nothing when its id is already taken.
    pub fn insert(&mut self, record: SubscriptionRecord) -> (r: Result<(), String>)
        ensures
            r is Ok <==> !has_id(old(self)@, record.id),
            final(self)@ == after_insert(old(self)@, record),
    {
        let mut i: usize = 0;
        while i < self.records.len()
            invariant
                i <= self.records@.len(),
                forall|j: int| 0 <= j < i ==> (#[trigger] self.records@[j]).id != record.id,
            decreases self.records@.len() - i,
        {
            if self.records[i].id == record.id {
                return Err(String::from_str("a subscription with this id already exists"));
            }
            i = i + 1;
        }
        self.records.push(record);
        Ok(())
    }

    pub fn len(&self) -> (r: usize)
        ensures
            r == self@.len(),
    {
        self.records.len()
    }

    pub fn get(&self, i: usize) -> (r: &SubscriptionRecord)
        requires
            i < self@.len(),
        ensures
            *r == self@[i as int],
    {
        &self.records[i]
    }
}

/// Submitting the same subscriber twice stores two records, one per
/// submission and both with its email and name, since each submission gets
/// a fresh id and emails are not unique.
pub proof fn lemma_resubmission_keeps_both(
    records: Seq<SubscriptionRecord>,
    first: SubscriptionRecord,
    second: SubscriptionRecord,
)
    requires
        !has_id(records, first.id),
        !has_id(records, second.id),
        first.id != second.id,
        first.email@ == second.email@,
        first.name@ == second.name@,
    ensures
        after_insert(after_insert(records, first), second) == records.push(first).push(second),
        after_insert(after_insert(records, first), second).len() == records.len() + 2,
        after_insert(after_insert(records, first), second)[records.len() as int + 1].email@
            == first.email@,
        after_insert(after_insert(records, first), second)[records.len() as int + 1].name@
            == first.name@,
{
    let once = records.push(first);
    assert forall|i: int| 0 <= i < once.len() implies (#[trigger] once[i]).id != second.id by {
        if i < records.len() {
            assert(once[i] == records[i]);
        }
    }
}

} // verus!
