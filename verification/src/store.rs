//! Append-only opportunity log with most-recent-first retrieval.
//!
//! Records are immutable once appended and ordered by insertion;
//! `list_descending` returns them newest first. Durability of the log is
//! the storage engine's concern and lives outside this crate; this store
//! fixes the ordering and round-trip behaviour that the query surface
//! relies on.

use vstd::prelude::*;

use crate::evaluate::Opportunity;

verus! {

/// One persisted record: the detected opportunity together with its event
/// timestamp (RFC 3339 text).
pub struct StoredOpportunity {
    pub timestamp: String,
    pub opportunity: Opportunity,
}

impl Clone for StoredOpportunity {
    fn clone(&self) -> (r: Self)
        ensures
            r == *self,
    {
        StoredOpportunity { timestamp: self.timestamp.clone(), opportunity: self.opportunity }
    }
}

/// The insertion-ordered log, oldest first.
pub struct OpportunityStore {
    records: Vec<StoredOpportunity>,
}

/// The order in which records are listed: newest first.
pub open spec fn descending(s: Seq<StoredOpportunity>) -> Seq<StoredOpportunity> {
    Seq::new(s.len(), |i: int| s[s.len() - 1 - i])
}

/// Listing after one more append shows the new record first and the
/// previous listing unchanged after it: the round trip keeps every record
/// and strictly reverses insertion order.
pub proof fn lemma_append_then_list(s: Seq<StoredOpportunity>, r: StoredOpportunity)
    ensures
        descending(s.push(r)) == seq![r] + descending(s),
{
    assert(descending(s.push(r)) =~= seq![r] + descending(s));
}

impl View for OpportunityStore {
    type V = Seq<StoredOpportunity>;

    closed spec fn view(&self) -> Seq<StoredOpportunity> {
        self.records@
    }
}

/// Relies on chrono's `Utc::now` (the clock) rendered by
/// `DateTime::to_rfc3339`; the clock decides the value, so nothing is
/// promised of it.
#[verifier::external_body]
fn now_rfc3339() -> (r: String) {
    chrono::Utc::now().to_rfc3339()
}

impl OpportunityStore {
    /// An empty log.
    pub fn new() -> (s: Self)
        ensures
            s@ == Seq::<StoredOpportunity>::empty(),
    {
        OpportunityStore { records: Vec::new() }
    }

    pub fn len(&self) -> (n: usize)
        ensures
            n == self@.len(),
    {
        self.records.len()
    }

    /// Append one record with the given event timestamp. The log grows by
    /// exactly that record; nothing already stored moves.
    pub fn append(&mut self, timestamp: String, opportunity: Opportunity)
        ensures
            final(self)@ == old(self)@.push(StoredOpportunity { timestamp, opportunity }),
    {
        self.records.push(StoredOpportunity { timestamp, opportunity });
    }

    /// Append one record stamped with the current wall-clock time.
    pub fn append_now(&mut self, opportunity: Opportunity)
        ensures
            final(self)@.len() == old(self)@.len() + 1,
            final(self)@.last().opportunity == opportunity,
            forall|i: int| 0 <= i < old(self)@.len() ==> final(self)@[i] == old(self)@[i],
    {
        let timestamp = now_rfc3339();
        self.append(timestamp, opportunity);
    }

    /// All records, most recent first.
    pub fn list_descending(&self) -> (r: Vec<StoredOpportunity>)
        ensures
            r@ == descending(self@),
            r@.len() == self@.len(),
            forall|i: int| 0 <= i < r@.len() ==> r@[i] == self@[self@.len() - 1 - i],
    {
        let mut out: Vec<StoredOpportunity> = Vec::new();
        let mut i: usize = self.records.len();
        while i > 0
            invariant
                i <= self.records.len(),
                out@.len() == self.records@.len() - i,
                forall|j: int|
                    0 <= j < out@.len() ==> out@[j] == self.records@[self.records@.len() - 1 - j],
            decreases i,
        {
            i = i - 1;
            out.push(self.records[i].clone());
        }
        proof {
            assert(out@ =~= descending(self@));
        }
        out
    }
}

} // verus!
