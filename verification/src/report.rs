//! The report accumulator: a plain tally of one run's outcomes.

use vstd::prelude::*;

use crate::types::PropertyRecord;

verus! {

/// Report containing information about the execution.
///
/// Mutated by exactly one owner — the progress/interrupt aggregator — and
/// read-only afterwards by report emission.
#[derive(Debug)]
pub struct Report {
    /// Number of records already in the output before the execution.
    pub record_skipped_count: usize,
    /// Number of records that we successfully processed.
    pub record_processed_successful_count: usize,
    /// Number of records that have some information missing.
    pub record_processed_info_missing_count: usize,
    /// Errors for records that failed to process, in arrival order.
    pub records_processed_failed: Vec<(PropertyRecord, &'static str)>,
}

/// Spec-level image of a [`Report`]: the four tallies as plain values, with
/// each recorded error as its record index and message.
#[verifier::ext_equal]
pub struct ReportView {
    pub skipped: int,
    pub success: int,
    pub partial: int,
    pub errors: Seq<(int, Seq<char>)>,
}

impl View for Report {
    type V = ReportView;

    open spec fn view(&self) -> ReportView {
        ReportView {
            skipped: self.record_skipped_count as int,
            success: self.record_processed_successful_count as int,
            partial: self.record_processed_info_missing_count as int,
            errors: self.records_processed_failed@.map_values(
                |e: (PropertyRecord, &'static str)| (e.0@, e.1@),
            ),
        }
    }
}

impl ReportView {
    /// Number of outcomes this report has absorbed, skipped records aside.
    pub open spec fn processed(self) -> int {
        self.success + self.partial + self.errors.len()
    }
}

impl Report {
    /// A fresh report: the skipped tally is set once, from the resume offset,
    /// and every other tally starts at zero.
    pub fn new(record_skipped_count: usize) -> (report: Report)
        ensures
            report@ == (ReportView {
                skipped: record_skipped_count as int,
                success: 0,
                partial: 0,
                errors: Seq::empty(),
            }),
    {
        let report = Report {
            record_skipped_count,
            record_processed_successful_count: 0,
            record_processed_info_missing_count: 0,
            records_processed_failed: Vec::new(),
        };
        proof {
            assert(report@.errors =~= Seq::<(int, Seq<char>)>::empty());
        }
        report
    }
}

} // verus!
