//! The partition table walker. The external table is reached through an
//! opaque cursor that yields one raw record at a time and signals exhaustion
//! with a null result; the walker models that as being fed `Option` values,
//! decodes each record in arrival order, and accumulates the report. The walk
//! is one-shot: once exhausted, a walker takes no further input.

use vstd::prelude::*;
use crate::partition::{decode_record, decode_record_spec, PartitionRecord, RawRecord};

verus! {

/// Where a walk stands: before the first lookup, on a record, or past the
/// end of the table.
#[derive(Clone, Copy, Debug, PartialEq, Eq, Structural)]
pub enum WalkerState {
    NotStarted,
    Positioned,
    Exhausted,
}

/// A one-shot traversal of the external partition table. Each record the
/// cursor yields is decoded and appended to the report; a null yield ends the
/// walk for good.
pub struct PartitionTableWalker {
    pub state: WalkerState,
    pub reports: Vec<PartitionRecord>,
}

impl PartitionTableWalker {
    pub fn new() -> (walker: Self)
        ensures
            walker.state == WalkerState::NotStarted,
            walker.reports@ == Seq::<PartitionRecord>::empty(),
    {
        PartitionTableWalker { state: WalkerState::NotStarted, reports: Vec::new() }
    }

    /// Takes the cursor's next yield. A record moves the walk to
    /// `Positioned` and appends its decoding; a null yield moves it to
    /// `Exhausted` and leaves the report as it stands. An empty table (null
    /// on the very first yield) thus ends the walk with an empty report,
    /// which is a valid outcome, not an error.
    pub fn feed(&mut self, item: Option<RawRecord>)
        requires
            old(self).state != WalkerState::Exhausted,
        ensures
            match item {
                Some(raw) => final(self).state == WalkerState::Positioned && final(self).reports@
                    == old(self).reports@.push(decode_record_spec(raw)),
                None => final(self).state == WalkerState::Exhausted && final(self).reports@ == old(
                    self,
                ).reports@,
            },
    {
        match item {
            Some(raw) => {
                self.state = WalkerState::Positioned;
                let rec = decode_record(&raw);
                self.reports.push(rec);
            },
            None => {
                self.state = WalkerState::Exhausted;
            },
        }
    }
}

/// Walks a whole table of raw records: every record is decoded, exactly once
/// each and in the order the table yields them, and nothing else enters the
/// report. A table of no records yields an empty report.
pub fn walk(records: &Vec<RawRecord>) -> (reports: Vec<PartitionRecord>)
    ensures
        reports@.len() == records@.len(),
        forall|i: int|
            0 <= i < records@.len() ==> reports@[i] == decode_record_spec(records@[i]),
{
    let mut walker = PartitionTableWalker::new();
    let mut idx: usize = 0;
    while idx < records.len()
        invariant
            idx <= records@.len(),
            walker.state != WalkerState::Exhausted,
            walker.reports@.len() == idx,
            forall|i: int|
                0 <= i < idx ==> walker.reports@[i] == decode_record_spec(records@[i]),
        decreases records@.len() - idx,
    {
        walker.feed(Some(records[idx]));
        idx = idx + 1;
    }
    walker.feed(None);
    walker.reports
}

} // verus!
