//! Whole-run behaviour: the sequential executor, the aggregator's tallies,
//! the interrupt policy, and the record source.

use pstitle::executor::execute_run;
use pstitle::reporter::ProgressOrInterrupt;
use pstitle::reporter::Reporter;
use pstitle::stages::t01_read_credentials;
use pstitle::stages::t02_stream_property_title_records;
use pstitle::stages::t03_read_output_file;
use pstitle::stages::t07_retrieve_information_outcome;
use pstitle::stages::t08_augment_record;
use pstitle::types::PropertyInfoResult;
use pstitle::types::PropertyRecord;

#[test]
fn scenario_ten_records_from_scratch() {
    let reporter = execute_run(10, 0);
    let report = reporter.report();
    assert_eq!(report.record_processed_successful_count, 6);
    assert_eq!(report.record_processed_info_missing_count, 3);
    assert_eq!(report.records_processed_failed.len(), 1);
    assert_eq!(report.records_processed_failed[0].0 .0, 0);
    assert_eq!(report.record_skipped_count, 0);
    assert!(!reporter.is_interrupted());
}

#[test]
fn scenario_fully_resumed_run_executes_no_stages() {
    let reporter = execute_run(5, 5);
    let report = reporter.report();
    assert_eq!(report.record_processed_successful_count, 0);
    assert_eq!(report.record_processed_info_missing_count, 0);
    assert_eq!(report.records_processed_failed.len(), 0);
    assert_eq!(report.record_skipped_count, 5);
    assert!(!reporter.is_interrupted());
    assert_eq!(reporter.progress_position(), 5);
}

#[test]
fn scenario_interrupt_after_four_events() {
    let mut reporter = Reporter::new(20, 0);
    for n in 0..4usize {
        let info = t07_retrieve_information_outcome(n, PropertyRecord(n));
        reporter.process_event(ProgressOrInterrupt::Progress(info));
    }
    reporter.process_event(ProgressOrInterrupt::Interrupt);
    assert!(reporter.is_interrupted());
    let report = reporter.report();
    // Indices 0..3 classify as Error, Success, Success, SuccessPartial.
    assert_eq!(report.record_processed_successful_count, 2);
    assert_eq!(report.record_processed_info_missing_count, 1);
    assert_eq!(report.records_processed_failed.len(), 1);
    assert_eq!(report.records_processed_failed[0].0 .0, 0);
    // The final report is still emitted after an interrupt.
    let text = reporter.report().render();
    assert!(text.contains("# Report"));
}

#[test]
fn uninterrupted_totals_add_up() {
    for (count, skip) in [(50u64, 0u64), (50, 17), (100, 99), (33, 0), (1, 0), (0, 0)] {
        let reporter = execute_run(count, skip);
        let report = reporter.report();
        let processed = report.record_processed_successful_count
            + report.record_processed_info_missing_count
            + report.records_processed_failed.len();
        assert_eq!(report.record_skipped_count as u64, skip);
        assert_eq!(processed as u64, count - skip);
        assert_eq!(reporter.progress_position(), count);
    }
}

#[test]
fn tallies_match_observed_events() {
    let mut reporter = Reporter::new(10, 2);
    let events = [
        PropertyInfoResult::Success,
        PropertyInfoResult::SuccessPartial,
        PropertyInfoResult::Error(PropertyRecord(7), "no data"),
        PropertyInfoResult::Success,
    ];
    for info in events {
        reporter.process_event(ProgressOrInterrupt::Progress(info));
    }
    let report = reporter.report();
    let processed = report.record_processed_successful_count
        + report.record_processed_info_missing_count
        + report.records_processed_failed.len();
    assert_eq!(processed, events.len());
    assert_eq!(reporter.progress_position(), 2 + events.len() as u64);
}

#[test]
fn error_list_preserves_ascending_index_order() {
    let reporter = execute_run(100, 0);
    let report = reporter.report();
    let indices: Vec<usize> = report
        .records_processed_failed
        .iter()
        .map(|(record, _)| record.0)
        .collect();
    assert_eq!(indices, vec![0, 33, 66, 99]);
    for (_, message) in report.records_processed_failed.iter() {
        assert_eq!(*message, "Could not find record information online.");
    }
}

#[test]
fn resumed_run_only_tallies_remaining_records() {
    let reporter = execute_run(67, 30);
    let report = reporter.report();
    let indices: Vec<usize> = report
        .records_processed_failed
        .iter()
        .map(|(record, _)| record.0)
        .collect();
    assert_eq!(indices, vec![33, 66]);
    assert_eq!(report.record_skipped_count, 30);
    // Multiples of 3 in 30..67 minus the two failing indices.
    assert_eq!(report.record_processed_info_missing_count, 11);
    assert_eq!(report.record_processed_successful_count, 24);
}

#[test]
fn events_after_interrupt_are_dropped() {
    let mut reporter = Reporter::new(8, 0);
    reporter.process_event(ProgressOrInterrupt::Progress(PropertyInfoResult::Success));
    reporter.process_event(ProgressOrInterrupt::Interrupt);
    reporter.process_event(ProgressOrInterrupt::Progress(PropertyInfoResult::Success));
    reporter.process_event(ProgressOrInterrupt::Progress(
        PropertyInfoResult::SuccessPartial,
    ));
    reporter.process_event(ProgressOrInterrupt::Interrupt);
    let report = reporter.report();
    assert_eq!(report.record_processed_successful_count, 1);
    assert_eq!(report.record_processed_info_missing_count, 0);
    assert!(reporter.is_interrupted());
    assert_eq!(reporter.progress_position(), 8);
}

#[test]
fn interrupt_before_any_event_still_reports() {
    let mut reporter = Reporter::new(5, 0);
    reporter.process_event(ProgressOrInterrupt::Interrupt);
    assert!(reporter.is_interrupted());
    let report = reporter.report();
    assert_eq!(report.record_processed_successful_count, 0);
    assert_eq!(report.record_processed_info_missing_count, 0);
    assert_eq!(report.records_processed_failed.len(), 0);
    assert_eq!(report.record_skipped_count, 0);
    let text = report.render();
    assert!(text.contains("## Summary"));
}

#[test]
fn record_source_yields_ascending_indices() {
    let records = t02_stream_property_title_records(7);
    assert_eq!(records.len(), 7);
    for (i, record) in records.iter().enumerate() {
        assert_eq!(record.0, i);
    }
    assert!(t02_stream_property_title_records(0).is_empty());
}

#[test]
fn resume_offset_passes_through() {
    assert_eq!(t03_read_output_file(0), 0);
    assert_eq!(t03_read_output_file(42), 42);
}

#[test]
fn augment_pairs_record_with_outcome() {
    let _credentials = t01_read_credentials();
    let record = PropertyRecord(4);
    let info = t07_retrieve_information_outcome(4, record);
    let populated = t08_augment_record(record, info);
    assert_eq!(populated.record.0, 4);
    assert!(matches!(populated.info, PropertyInfoResult::Success));
}
