//! The laws the pipeline obeys, stated over the aggregator's model and
//! proved once and for all: the classification rule partitions the indices,
//! tallies match the observed events, the error list preserves arrival
//! order, interruption freezes the report, and report emission is pure.

use vstd::prelude::*;

use crate::executor::spec_emitted_events;
use crate::render::spec_render;
use crate::report::ReportView;
use crate::reporter::EventView;
use crate::reporter::ReporterView;
use crate::reporter::spec_progress_count;
use crate::reporter::spec_reporter_init;
use crate::reporter::spec_run;
use crate::stages::spec_error_message;
use crate::stages::spec_outcome_for_index;
use crate::types::OutcomeView;

verus! {

/// Indices whose fetch fails: every 33rd.
pub open spec fn spec_is_error_index(n: int) -> bool {
    n % 33 == 0
}

/// Indices whose fetch comes back with missing information: multiples of 3
/// that are not multiples of 33.
pub open spec fn spec_is_partial_index(n: int) -> bool {
    n % 33 != 0 && n % 3 == 0
}

/// Indices whose fetch fully succeeds: all others.
pub open spec fn spec_is_success_index(n: int) -> bool {
    n % 33 != 0 && n % 3 != 0
}

/// The fetch-outcome rule is deterministic, total, and classifies every
/// index into exactly one of the three classes.
pub proof fn lemma_outcome_rule_partitions(n: int)
    ensures
        spec_is_error_index(n) <==> spec_outcome_for_index(n) is Error,
        spec_is_partial_index(n) <==> spec_outcome_for_index(n) is SuccessPartial,
        spec_is_success_index(n) <==> spec_outcome_for_index(n) is Success,
{
}

/// Number of fully successful indices in `skip..count`.
pub open spec fn spec_success_count(count: int, skip: int) -> int
    decreases count - skip,
{
    if count <= skip {
        0int
    } else {
        spec_success_count(count - 1, skip) + if spec_is_success_index(count - 1) {
            1int
        } else {
            0int
        }
    }
}

/// Number of missing-information indices in `skip..count`.
pub open spec fn spec_partial_count(count: int, skip: int) -> int
    decreases count - skip,
{
    if count <= skip {
        0int
    } else {
        spec_partial_count(count - 1, skip) + if spec_is_partial_index(count - 1) {
            1int
        } else {
            0int
        }
    }
}

/// Number of failing indices in `skip..count`.
pub open spec fn spec_error_count(count: int, skip: int) -> int
    decreases count - skip,
{
    if count <= skip {
        0int
    } else {
        spec_error_count(count - 1, skip) + if spec_is_error_index(count - 1) {
            1int
        } else {
            0int
        }
    }
}

/// Every index in `skip..count` falls in exactly one class, so the three
/// class counts partition the processed range.
pub proof fn lemma_class_counts_partition(count: int, skip: int)
    requires
        skip <= count,
    ensures
        spec_success_count(count, skip) + spec_partial_count(count, skip) + spec_error_count(
            count,
            skip,
        ) == count - skip,
    decreases count - skip,
{
    if count > skip {
        lemma_class_counts_partition(count - 1, skip);
    }
}

/// The error list an uninterrupted executor's run leaves behind: one entry
/// per failing index in `skip..count`, in ascending index order, each with
/// the fetch error message.
pub open spec fn spec_expected_errors(count: int, skip: int) -> Seq<(int, Seq<char>)>
    decreases count - skip,
{
    if count <= skip {
        Seq::empty()
    } else if spec_is_error_index(count - 1) {
        spec_expected_errors(count - 1, skip).push((count - 1, spec_error_message()))
    } else {
        spec_expected_errors(count - 1, skip)
    }
}

/// The expected error list has one entry per failing index; its entries all
/// lie in `skip..count`, carry the fetch error message, and their record
/// indices strictly ascend.
pub proof fn lemma_expected_errors_ordered(count: int, skip: int)
    requires
        skip <= count,
    ensures
        spec_expected_errors(count, skip).len() == spec_error_count(count, skip),
        forall|k: int| 0 <= k < spec_expected_errors(count, skip).len() ==> {
            &&& skip <= (#[trigger] spec_expected_errors(count, skip)[k]).0 < count
            &&& spec_is_error_index(spec_expected_errors(count, skip)[k].0)
            &&& spec_expected_errors(count, skip)[k].1 == spec_error_message()
        },
        forall|j: int, k: int|
            0 <= j < k < spec_expected_errors(count, skip).len() ==> (
            #[trigger] spec_expected_errors(count, skip)[j]).0 < (
            #[trigger] spec_expected_errors(count, skip)[k]).0,
    decreases count - skip,
{
    if count > skip {
        lemma_expected_errors_ordered(count - 1, skip);
    }
}

/// Once the aggregator is interrupted its state is frozen: no later event
/// changes anything — in particular the interrupted flag is never reset and
/// the report is never mutated again.
pub proof fn lemma_interrupted_is_frozen(state: ReporterView, events: Seq<EventView>)
    requires
        state.interrupted,
    ensures
        spec_run(state, events) == state,
    decreases events.len(),
{
    if events.len() > 0 {
        lemma_interrupted_is_frozen(state, events.drop_last());
    }
}

/// Number of progress events the aggregator tallies when it starts in
/// `state` and consumes `events`: those it observes strictly before the
/// interrupt.
pub open spec fn spec_observed_progress(state: ReporterView, events: Seq<EventView>) -> int
    decreases events.len(),
{
    if events.len() == 0 {
        0int
    } else {
        spec_observed_progress(state, events.drop_last()) + if !spec_run(
            state,
            events.drop_last(),
        ).interrupted && events.last() is Progress {
            1int
        } else {
            0int
        }
    }
}

/// The aggregator's bookkeeping over any event sequence: the skipped tally
/// and the total are set once and never move, and the tallied outcomes grow
/// by exactly the observed progress events — never by more than the progress
/// events the sequence holds.
pub proof fn lemma_tally_matches_observed(state: ReporterView, events: Seq<EventView>)
    ensures
        spec_run(state, events).report.skipped == state.report.skipped,
        spec_run(state, events).total == state.total,
        spec_run(state, events).report.processed() == state.report.processed()
            + spec_observed_progress(state, events),
        spec_observed_progress(state, events) <= spec_progress_count(events),
        spec_progress_count(events) <= events.len(),
    decreases events.len(),
{
    if events.len() > 0 {
        lemma_tally_matches_observed(state, events.drop_last());
    }
}

/// The tallies of a run that starts fresh and sees at most `count - skip`
/// progress events: outcomes in the report correspond one to one to the
/// observed progress events, and never outnumber the records the run was to
/// process.
pub proof fn lemma_tally_counts_events(count: int, skip: int, events: Seq<EventView>)
    requires
        0 <= skip <= count,
        spec_progress_count(events) <= count - skip,
    ensures
        spec_run(spec_reporter_init(count, skip), events).report.processed()
            == spec_observed_progress(spec_reporter_init(count, skip), events),
        spec_observed_progress(spec_reporter_init(count, skip), events) <= count - skip,
{
    lemma_tally_matches_observed(spec_reporter_init(count, skip), events);
}

/// True when no event of the sequence is the interrupt.
pub open spec fn spec_no_interrupt(events: Seq<EventView>) -> bool {
    forall|i: int| 0 <= i < events.len() ==> (#[trigger] events[i]) is Progress
}

/// An aggregator that has not been interrupted and sees only progress events
/// stays uninterrupted.
pub proof fn lemma_no_interrupt_stays_clear(state: ReporterView, events: Seq<EventView>)
    requires
        !state.interrupted,
        spec_no_interrupt(events),
    ensures
        !spec_run(state, events).interrupted,
    decreases events.len(),
{
    if events.len() > 0 {
        assert(spec_no_interrupt(events.drop_last()));
        lemma_no_interrupt_stays_clear(state, events.drop_last());
        assert(events.last() == events[events.len() - 1]);
    }
}

/// The errors the aggregator appends when it starts in `state` and consumes
/// `events`: the error outcomes among the observed progress events, in
/// arrival order.
pub open spec fn spec_observed_errors(state: ReporterView, events: Seq<EventView>) -> Seq<
    (int, Seq<char>),
>
    decreases events.len(),
{
    if events.len() == 0 {
        Seq::empty()
    } else {
        let prefix = spec_observed_errors(state, events.drop_last());
        if !spec_run(state, events.drop_last()).interrupted {
            match events.last() {
                EventView::Progress(OutcomeView::Error(record, message)) => prefix.push(
                    (record, message),
                ),
                _ => prefix,
            }
        } else {
            prefix
        }
    }
}

/// The error list preserves arrival order: after any event sequence it is
/// the starting list followed by the observed error outcomes, in the order
/// they arrived.
pub proof fn lemma_error_list_preserves_arrival_order(state: ReporterView, events: Seq<EventView>)
    ensures
        spec_run(state, events).report.errors == state.report.errors + spec_observed_errors(
            state,
            events,
        ),
    decreases events.len(),
{
    if events.len() == 0 {
        assert(state.report.errors + Seq::<(int, Seq<char>)>::empty() =~= state.report.errors);
    } else {
        lemma_error_list_preserves_arrival_order(state, events.drop_last());
        let prefix = spec_observed_errors(state, events.drop_last());
        match events.last() {
            EventView::Progress(OutcomeView::Error(record, message)) => {
                assert(state.report.errors + prefix.push((record, message)) =~= (
                state.report.errors + prefix).push((record, message)));
            },
            _ => {},
        }
    }
}

/// Interruption after `before` freezes the report: whatever arrives after
/// the interrupt, the report holds exactly the outcomes observed before it,
/// the interrupted flag is and stays set, and the position tracker is
/// finalized at the total.
pub proof fn lemma_interrupt_freezes_report(
    state: ReporterView,
    before: Seq<EventView>,
    after: Seq<EventView>,
)
    requires
        !state.interrupted,
        spec_no_interrupt(before),
    ensures
        spec_run(state, before + seq![EventView::Interrupt] + after).report == spec_run(
            state,
            before,
        ).report,
        spec_run(state, before + seq![EventView::Interrupt] + after).interrupted,
        spec_run(state, before + seq![EventView::Interrupt] + after).position == state.total,
    decreases after.len(),
{
    lemma_no_interrupt_stays_clear(state, before);
    lemma_tally_matches_observed(state, before);
    if after.len() == 0 {
        assert((before + seq![EventView::Interrupt] + after).drop_last() =~= before);
        assert((before + seq![EventView::Interrupt] + after).last() == EventView::Interrupt);
    } else {
        lemma_interrupt_freezes_report(state, before, after.drop_last());
        assert((before + seq![EventView::Interrupt] + after).drop_last() =~= before + seq![
            EventView::Interrupt,
        ] + after.drop_last());
    }
}

/// The aggregator state an uninterrupted run over `skip..count` ends in.
pub open spec fn spec_full_run(count: int, skip: int) -> ReporterView {
    spec_run(spec_reporter_init(count, skip), spec_emitted_events(count, skip))
}

/// Without an interrupt the total is never read: two aggregators that agree
/// on everything but the total stay in lockstep over any interrupt-free
/// event sequence.
pub proof fn lemma_total_unread_without_interrupt(
    first: ReporterView,
    second: ReporterView,
    events: Seq<EventView>,
)
    requires
        spec_no_interrupt(events),
        first.report == second.report,
        first.position == second.position,
        first.interrupted == second.interrupted,
    ensures
        spec_run(first, events).report == spec_run(second, events).report,
        spec_run(first, events).position == spec_run(second, events).position,
        spec_run(first, events).interrupted == spec_run(second, events).interrupted,
    decreases events.len(),
{
    if events.len() > 0 {
        assert(spec_no_interrupt(events.drop_last()));
        lemma_total_unread_without_interrupt(first, second, events.drop_last());
        assert(events.last() == events[events.len() - 1]);
    }
}

/// The uninterrupted run tallies every index of `skip..count` by its class:
/// the skipped tally is the resume offset, the success and missing-info
/// tallies are the class counts, the error list is exactly the failing
/// indices in ascending order, and the position tracker ends at the total.
pub proof fn lemma_uninterrupted_run(count: int, skip: int)
    requires
        0 <= skip <= count,
    ensures
        spec_full_run(count, skip).report.skipped == skip,
        spec_full_run(count, skip).report.success == spec_success_count(count, skip),
        spec_full_run(count, skip).report.partial == spec_partial_count(count, skip),
        spec_full_run(count, skip).report.errors == spec_expected_errors(count, skip),
        !spec_full_run(count, skip).interrupted,
        spec_full_run(count, skip).position == count,
        spec_full_run(count, skip).total == count,
    decreases count - skip,
{
    if count == skip {
        assert(spec_emitted_events(count, skip).len() == 0);
        assert(spec_full_run(count, skip).report.errors =~= spec_expected_errors(count, skip));
    } else {
        lemma_uninterrupted_run(count - 1, skip);
        let init_full = spec_reporter_init(count, skip);
        let init_prev = spec_reporter_init(count - 1, skip);
        let prev_events = spec_emitted_events(count - 1, skip);
        assert(spec_emitted_events(count, skip).drop_last() =~= prev_events);
        assert(spec_emitted_events(count, skip).last() == EventView::Progress(
            spec_outcome_for_index(count - 1),
        ));
        assert forall|i: int| 0 <= i < prev_events.len() implies (
        #[trigger] prev_events[i]) is Progress by {}
        lemma_total_unread_without_interrupt(init_full, init_prev, prev_events);
        lemma_tally_matches_observed(init_full, prev_events);
    }
}

/// An uninterrupted run with total `count` and resume offset `skip` reports
/// `skip` skipped records and `count - skip` outcomes.
pub proof fn lemma_uninterrupted_run_totals(count: int, skip: int)
    requires
        0 <= skip <= count,
    ensures
        spec_full_run(count, skip).report.skipped == skip,
        spec_full_run(count, skip).report.processed() == count - skip,
{
    lemma_uninterrupted_run(count, skip);
    lemma_class_counts_partition(count, skip);
    lemma_expected_errors_ordered(count, skip);
}

/// A run of `skip..count` interrupted after exactly `k` observed progress
/// events reports exactly the outcomes of indices `skip..skip + k` — the
/// same report an uninterrupted run over just those records would produce —
/// whatever else arrives after the interrupt, and ends interrupted.
pub proof fn lemma_interrupted_run_reflects_prefix(
    count: int,
    skip: int,
    k: int,
    after: Seq<EventView>,
)
    requires
        0 <= skip,
        0 <= k,
        skip + k <= count,
    ensures
        spec_run(
            spec_reporter_init(count, skip),
            spec_emitted_events(count, skip).take(k) + seq![EventView::Interrupt] + after,
        ).report == spec_full_run(skip + k, skip).report,
        spec_run(
            spec_reporter_init(count, skip),
            spec_emitted_events(count, skip).take(k) + seq![EventView::Interrupt] + after,
        ).interrupted,
{
    let init_full = spec_reporter_init(count, skip);
    let init_prefix = spec_reporter_init(skip + k, skip);
    let events_k = spec_emitted_events(count, skip).take(k);
    assert(events_k =~= spec_emitted_events(skip + k, skip));
    assert forall|i: int| 0 <= i < events_k.len() implies (#[trigger] events_k[i]) is Progress by {}
    lemma_interrupt_freezes_report(init_full, events_k, after);
    lemma_total_unread_without_interrupt(init_full, init_prefix, events_k);
}

/// Report emission is a pure read of the final report state: the text is a
/// function of that state alone, so rendering the same state twice yields
/// identical text.
pub proof fn lemma_render_pure(first: ReportView, second: ReportView)
    requires
        first == second,
    ensures
        spec_render(first) == spec_render(second),
{
}

} // verus!
