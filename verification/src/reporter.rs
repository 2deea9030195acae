//! The progress/interrupt aggregator.
//!
//! A run has two independent event producers: the pipeline executor, which
//! emits one [`ProgressOrInterrupt::Progress`] event per processed record, in
//! record-index order, and a one-shot out-of-band cancellation that appears
//! as a single [`ProgressOrInterrupt::Interrupt`] event.  Whatever merges the
//! two streams (a forwarding thread, a cooperative select), the [`Reporter`]
//! is the single consumer of the merged stream: [`Reporter::process_event`]
//! is the whole per-event decision, and the surrounding loop only fetches the
//! next event and hands it over.
//!
//! Interrupt policy: the interrupted flag is monotonic — once set it is never
//! reset — and a progress event handed over after the interrupt has been
//! observed is dropped without touching the report.  Events observed before
//! the interrupt are always tallied.

use vstd::prelude::*;

use crate::report::Report;
use crate::report::ReportView;
use crate::types::OutcomeView;
use crate::types::PropertyInfoResult;

verus! {

/// One element of the merged consumption stream: a record's outcome, or the
/// one-shot cancellation signal.
#[derive(Clone, Copy, Debug)]
pub enum ProgressOrInterrupt {
    Progress(PropertyInfoResult),
    Interrupt,
}

/// Spec-level image of a [`ProgressOrInterrupt`] event.
pub enum EventView {
    Progress(OutcomeView),
    Interrupt,
}

impl View for ProgressOrInterrupt {
    type V = EventView;

    open spec fn view(&self) -> EventView {
        match self {
            ProgressOrInterrupt::Progress(info) => EventView::Progress(info@),
            ProgressOrInterrupt::Interrupt => EventView::Interrupt,
        }
    }
}

/// Spec-level image of a [`Reporter`]: the report, the total record count,
/// the visual position tracker, and the interrupted flag.
#[verifier::ext_equal]
pub struct ReporterView {
    pub report: ReportView,
    pub total: int,
    pub position: int,
    pub interrupted: bool,
}

/// The aggregator's state right after construction: the report holds only the
/// skipped tally, the position tracker starts at the resume offset, and the
/// run is not interrupted.
pub open spec fn spec_reporter_init(total: int, skipped: int) -> ReporterView {
    ReporterView {
        report: ReportView { skipped: skipped, success: 0, partial: 0, errors: Seq::empty() },
        total: total,
        position: skipped,
        interrupted: false,
    }
}

/// How one outcome lands in the report: a success or partial success bumps
/// its counter; an error appends its record and message to the error list.
pub open spec fn spec_apply_outcome(report: ReportView, outcome: OutcomeView) -> ReportView {
    match outcome {
        OutcomeView::Success => ReportView { success: report.success + 1, ..report },
        OutcomeView::SuccessPartial => ReportView { partial: report.partial + 1, ..report },
        OutcomeView::Error(record, message) => ReportView {
            errors: report.errors.push((record, message)),
            ..report
        },
    }
}

/// The aggregator's transition on one event of the merged stream.  After the
/// interrupt has been observed the state is frozen: later events are dropped.
/// A progress event tallies its outcome and advances the position by one; the
/// interrupt sets the flag and finalizes the position tracker at the total.
pub open spec fn spec_step(state: ReporterView, event: EventView) -> ReporterView {
    if state.interrupted {
        state
    } else {
        match event {
            EventView::Progress(outcome) => ReporterView {
                report: spec_apply_outcome(state.report, outcome),
                position: state.position + 1,
                ..state
            },
            EventView::Interrupt => ReporterView {
                interrupted: true,
                position: state.total,
                ..state
            },
        }
    }
}

/// The aggregator's state after consuming a whole event sequence, one
/// [`spec_step`] at a time.
pub open spec fn spec_run(state: ReporterView, events: Seq<EventView>) -> ReporterView
    decreases events.len(),
{
    if events.len() == 0 {
        state
    } else {
        spec_step(spec_run(state, events.drop_last()), events.last())
    }
}

/// Number of progress events in an event sequence.
pub open spec fn spec_progress_count(events: Seq<EventView>) -> int
    decreases events.len(),
{
    if events.len() == 0 {
        0int
    } else {
        spec_progress_count(events.drop_last()) + if events.last() is Progress {
            1int
        } else {
            0int
        }
    }
}

/// Aggregator over the merged progress/interrupt stream: owns the report and
/// the interrupted flag; nothing else mutates them.
#[derive(Debug)]
pub struct Reporter {
    /// Process report of records.
    report: Report,
    /// Total number of records of the run, skipped ones included; the visual
    /// position tracker's upper bound.
    total: u64,
    /// The visual position tracker for the overall progress display.
    position: u64,
    /// Whether this reporter has been interrupted.
    interrupted: bool,
}

impl View for Reporter {
    type V = ReporterView;

    closed spec fn view(&self) -> ReporterView {
        ReporterView {
            report: self.report@,
            total: self.total as int,
            position: self.position as int,
            interrupted: self.interrupted,
        }
    }
}

impl Reporter {
    /// The aggregator's structural bounds: the position tracker never passes
    /// the total, the total fits the report's machine-sized tallies, and the
    /// tallied outcomes together with the skipped records never outnumber the
    /// positions the tracker has covered.
    pub open spec fn wf(&self) -> bool {
        &&& self@.total <= usize::MAX as int
        &&& self@.position <= self@.total
        &&& self@.report.skipped + self@.report.processed() <= self@.position
        &&& self@.report.skipped <= self@.position
    }

    /// Constructs the aggregator for a run of `record_count` records of which
    /// `record_count_processed` were already processed by a prior run.
    pub fn new(record_count: u64, record_count_processed: u64) -> (reporter: Reporter)
        requires
            record_count_processed <= record_count,
            record_count <= usize::MAX as u64,
        ensures
            reporter@ == spec_reporter_init(record_count as int, record_count_processed as int),
            reporter.wf(),
    {
        let reporter = Reporter {
            report: Report::new(record_count_processed as usize),
            total: record_count,
            position: record_count_processed,
            interrupted: false,
        };
        proof {
            assert(reporter@ =~= spec_reporter_init(
                record_count as int,
                record_count_processed as int,
            ));
        }
        reporter
    }

    /// Whether the one-shot interrupt has been observed.  The execution
    /// controller reads this after every completed record to decide whether
    /// to stop initiating further records.
    pub fn is_interrupted(&self) -> (interrupted: bool)
        ensures
            interrupted == self@.interrupted,
    {
        self.interrupted
    }

    /// Read-only access to the tallies; report emission reads these once the
    /// run has ended.
    pub fn report(&self) -> (report: &Report)
        ensures
            report@ == self@.report,
    {
        &self.report
    }

    /// The visual position tracker: resume offset plus tallied outcomes, or
    /// the total once the run was interrupted.
    pub fn progress_position(&self) -> (position: u64)
        ensures
            position == self@.position,
    {
        self.position
    }

    /// Consumes one event of the merged stream: exactly [`spec_step`] on the
    /// aggregator's state.
    ///
    /// A progress event may only arrive while the position tracker is short
    /// of the total: the pipeline executor emits at most one event per
    /// not-yet-skipped record, so an uninterrupted aggregator never sees more
    /// than `total - skipped` of them.
    pub fn process_event(&mut self, event: ProgressOrInterrupt)
        requires
            old(self).wf(),
            event is Progress && !old(self)@.interrupted ==> old(self)@.position < old(
                self,
            )@.total,
        ensures
            final(self).wf(),
            final(self)@ == spec_step(old(self)@, event@),
    {
        if self.interrupted {
            return ;
        }
        match event {
            ProgressOrInterrupt::Progress(info) => {
                match info {
                    PropertyInfoResult::Success => {
                        self.report.record_processed_successful_count =
                        self.report.record_processed_successful_count + 1;
                    },
                    PropertyInfoResult::SuccessPartial => {
                        self.report.record_processed_info_missing_count =
                        self.report.record_processed_info_missing_count + 1;
                    },
                    PropertyInfoResult::Error(record, error) => {
                        self.report.records_processed_failed.push((record, error));
                    },
                }
                self.position = self.position + 1;
                proof {
                    assert(self@ =~= spec_step(old(self)@, event@));
                }
            },
            ProgressOrInterrupt::Interrupt => {
                self.interrupted = true;
                self.position = self.total;
                proof {
                    assert(self@ =~= spec_step(old(self)@, event@));
                }
            },
        }
    }
}

} // verus!

