//! The pipeline's computational stages: reading credentials, producing the
//! record sequence, the resume offset, the deterministic fetch-outcome rule,
//! and record augmentation.
//!
//! The simulated waits that surround these computations in a live run
//! (rate-limit, authentication, retrieval and persistence delays) are timing
//! only: they decide nothing, and stay outside the library.

use vstd::prelude::*;

use crate::types::Credentials;
use crate::types::OutcomeView;
use crate::types::PropertyInfoResult;
use crate::types::PropertyRecord;
use crate::types::PropertyRecordPopulated;

verus! {

/// The message attached to every failed fetch.
pub open spec fn spec_error_message() -> Seq<char> {
    "Could not find record information online."@
}

/// The deterministic fetch-outcome rule, stated over an index `n` and the
/// index `rec` of the record handed to the fetch stage: every 33rd record
/// fails, every other multiple of 3 comes back with missing information, and
/// the rest succeed.
pub open spec fn spec_outcome_for_record(n: int, rec: int) -> OutcomeView {
    if n % 33 == 0 {
        OutcomeView::Error(rec, spec_error_message())
    } else if n % 3 == 0 {
        OutcomeView::SuccessPartial
    } else {
        OutcomeView::Success
    }
}

/// The fetch-outcome rule for the record at index `n` of the sequence, where
/// the record carries its own index.
pub open spec fn spec_outcome_for_index(n: int) -> OutcomeView {
    spec_outcome_for_record(n, n)
}

/// Obtains the credentials used by the authenticate stage.
pub fn t01_read_credentials() -> (credentials: Credentials)
    ensures
        credentials == Credentials,
{
    Credentials
}

/// Produces the full record sequence: `n` records whose indices run from `0`
/// to `n - 1` in creation order.
pub fn t02_stream_property_title_records(n: usize) -> (records: Vec<PropertyRecord>)
    ensures
        records@.len() == n,
        forall|i: int| 0 <= i < n ==> records@[i]@ == i,
{
    let mut records: Vec<PropertyRecord> = Vec::new();
    let mut i: usize = 0;
    while i < n
        invariant
            i <= n,
            records@.len() == i,
            forall|j: int| 0 <= j < i ==> records@[j]@ == j,
        decreases n - i,
    {
        records.push(PropertyRecord(i));
        i = i + 1;
    }
    records
}

/// Reads how many records a prior run already processed; those records are
/// skipped by this run and counted as pre-existing in the report.
pub fn t03_read_output_file(processed_count: usize) -> (skip: usize)
    ensures
        skip == processed_count,
{
    processed_count
}

/// The decision inside the fetch stage: classifies the record at index `n` by
/// the deterministic outcome rule.  A failed fetch is data, not a fault: the
/// error carries the record it originated from and a human-readable reason.
pub fn t07_retrieve_information_outcome(n: usize, property_record: PropertyRecord) -> (info:
    PropertyInfoResult)
    ensures
        info@ == spec_outcome_for_record(n as int, property_record@),
{
    if n % 33 == 0 {
        PropertyInfoResult::Error(property_record, "Could not find record information online.")
    } else if n % 3 == 0 {
        PropertyInfoResult::SuccessPartial
    } else {
        PropertyInfoResult::Success
    }
}

/// Pairs a record with its fetch outcome, yielding the populated record that
/// the persist stage consumes.
pub fn t08_augment_record(record: PropertyRecord, info: PropertyInfoResult) -> (populated:
    PropertyRecordPopulated)
    ensures
        populated.record == record,
        populated.info == info,
{
    PropertyRecordPopulated { record, info }
}

} // verus!
