//! The sequential pipeline executor.
//!
//! Spec-conformant executors must drive the first four stages (rate-limit,
//! authenticate, fetch, augment) of each record in strict record-index order,
//! so the aggregator observes outcomes in index order; only the persist stage
//! may run records concurrently, and its completions are not observed by the
//! report.  This module holds the single-worker realization of that policy:
//! one verified loop that walks the records from the resume offset on, runs
//! the fetch decision, and feeds each outcome to the aggregator in order.  A
//! live run that wants the simulated stage waits, an interrupt source and
//! concurrent persists drives the same per-record functions from its own
//! scheduler, in the same order.

use vstd::prelude::*;

use crate::reporter::EventView;
use crate::reporter::ProgressOrInterrupt;
use crate::reporter::Reporter;
use crate::reporter::spec_reporter_init;
use crate::reporter::spec_run;
use crate::stages::spec_outcome_for_index;
use crate::stages::t01_read_credentials;
use crate::stages::t02_stream_property_title_records;
use crate::stages::t03_read_output_file;
use crate::stages::t07_retrieve_information_outcome;
use crate::stages::t08_augment_record;
use crate::types::PropertyRecord;

verus! {

/// The event stream an uninterrupted, order-preserving executor emits for a
/// run of `count` records resumed at offset `skip`: one progress event per
/// record index from `skip` to `count - 1`, in ascending index order, each
/// carrying the outcome the deterministic fetch rule gives that index.
pub open spec fn spec_emitted_events(count: int, skip: int) -> Seq<EventView> {
    Seq::new(
        (count - skip) as nat,
        |i: int| EventView::Progress(spec_outcome_for_index(skip + i)),
    )
}

/// Runs the whole pipeline sequentially, with no interrupt source: obtains
/// credentials and the record sequence, skips the resumed prefix, drives each
/// remaining record through fetch and augment in index order, and feeds every
/// outcome to a fresh aggregator.  The result is exactly the aggregator state
/// after the emitted event stream of the run.
pub fn execute_run(record_count: u64, records_precompleted: u64) -> (reporter: Reporter)
    requires
        records_precompleted <= record_count,
        record_count <= usize::MAX as u64,
    ensures
        reporter.wf(),
        reporter@ == spec_run(
            spec_reporter_init(record_count as int, records_precompleted as int),
            spec_emitted_events(record_count as int, records_precompleted as int),
        ),
{
    let ghost init = spec_reporter_init(record_count as int, records_precompleted as int);
    let ghost emitted = spec_emitted_events(record_count as int, records_precompleted as int);

    let _credentials = t01_read_credentials();
    let count: usize = record_count as usize;
    let records = t02_stream_property_title_records(count);
    let skip: usize = t03_read_output_file(records_precompleted as usize);
    let mut reporter = Reporter::new(record_count, records_precompleted);

    let mut n: usize = skip;
    while n < count
        invariant
            skip <= n <= count,
            count == record_count as int,
            skip == records_precompleted as int,
            records@.len() == count,
            forall|j: int| 0 <= j < count ==> records@[j]@ == j,
            emitted == spec_emitted_events(record_count as int, records_precompleted as int),
            init == spec_reporter_init(record_count as int, records_precompleted as int),
            reporter.wf(),
            !reporter@.interrupted,
            reporter@.total == count,
            reporter@.position == n,
            reporter@ == spec_run(init, emitted.take(n - skip)),
        decreases count - n,
    {
        let record = records[n];
        let info = t07_retrieve_information_outcome(n, record);
        reporter.process_event(ProgressOrInterrupt::Progress(info));
        let _populated = t08_augment_record(record, info);
        proof {
            let k = n - skip;
            assert(emitted.take(k + 1).drop_last() =~= emitted.take(k));
            assert(emitted.take(k + 1).last() == EventView::Progress(
                spec_outcome_for_index(n as int),
            ));
            assert(reporter@ == spec_run(init, emitted.take(k + 1)));
        }
        // The controller stops initiating records once the interrupted flag
        // is set.  This run feeds the aggregator no interrupt event, so the
        // flag provably stays clear and there is nothing to check here; a
        // live run makes the same check through `Reporter::is_interrupted`.
        n = n + 1;
    }
    proof {
        assert(emitted.take(count - skip) =~= emitted);
    }
    reporter
}

} // verus!
