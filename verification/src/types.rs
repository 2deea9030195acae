//! Data carried through the pipeline: records, credentials, and per-record
//! outcomes, together with their spec-level images.

use vstd::prelude::*;

verus! {

/// Opaque token produced once at startup and passed to the authenticate
/// stage.  The core requires no internal structure of it.
#[derive(Clone, Copy, Debug)]
pub struct Credentials;

/// One unit of work: a record identified by its zero-based index in the
/// record sequence.
#[derive(Clone, Copy, Debug)]
pub struct PropertyRecord(pub usize);

impl View for PropertyRecord {
    type V = int;

    open spec fn view(&self) -> int {
        self.0 as int
    }
}

/// Classification of one processed record: fully processed, processed with
/// missing information, or failed with the originating record and a reason.
/// Exactly one variant applies per record.
#[derive(Clone, Copy, Debug)]
pub enum PropertyInfoResult {
    Success,
    SuccessPartial,
    Error(PropertyRecord, &'static str),
}

/// Spec-level image of a [`PropertyInfoResult`]: the failing record's index
/// and the message as plain mathematical values.
pub enum OutcomeView {
    Success,
    SuccessPartial,
    Error(int, Seq<char>),
}

impl View for PropertyInfoResult {
    type V = OutcomeView;

    open spec fn view(&self) -> OutcomeView {
        match self {
            PropertyInfoResult::Success => OutcomeView::Success,
            PropertyInfoResult::SuccessPartial => OutcomeView::SuccessPartial,
            PropertyInfoResult::Error(record, message) => OutcomeView::Error(record@, message@),
        }
    }
}

/// A record paired with its outcome, produced once the fetch and augment
/// stages complete; immutable thereafter.
#[derive(Clone, Copy, Debug)]
pub struct PropertyRecordPopulated {
    pub record: PropertyRecord,
    pub info: PropertyInfoResult,
}

} // verus!
