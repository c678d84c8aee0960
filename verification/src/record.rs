//! One record of a unified history: a parsed log line kept in its canonical
//! one-line JSON rendering, together with the timestamp used for ordering.

use vstd::prelude::*;

verus! {

/// One history record. `text` is the canonical one-line JSON rendering of
/// the source line; `ts` is the epoch-millisecond timestamp extracted from
/// it, 0 when the line carries none (0 sorts as "oldest").
pub struct Record {
    pub text: String,
    pub ts: i64,
}

pub struct RecordView {
    pub text: Seq<char>,
    pub ts: i64,
}

impl View for Record {
    type V = RecordView;

    open spec fn view(&self) -> RecordView {
        RecordView { text: self.text@, ts: self.ts }
    }
}

impl Record {
    /// A field-for-field copy of the record.
    pub fn duplicate(&self) -> (r: Record)
        ensures
            r@ == self@,
    {
        Record { text: self.text.clone(), ts: self.ts }
    }
}

/// The views of a sequence of records.
pub open spec fn recs(s: Seq<Record>) -> Seq<RecordView> {
    s.map_values(|r: Record| r@)
}

} // verus!
