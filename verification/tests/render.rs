//! Report emission: exact text, alignment, the errors table, and purity.

use pstitle::executor::execute_run;
use pstitle::report::Report;
use pstitle::types::PropertyRecord;

fn report_with(
    success: usize,
    partial: usize,
    errors: Vec<(usize, &'static str)>,
    skipped: usize,
) -> Report {
    Report {
        record_skipped_count: skipped,
        record_processed_successful_count: success,
        record_processed_info_missing_count: partial,
        records_processed_failed: errors
            .into_iter()
            .map(|(index, message)| (PropertyRecord(index), message))
            .collect(),
    }
}

#[test]
fn renders_ten_record_run_exactly() {
    let reporter = execute_run(10, 0);
    let text = reporter.report().render();
    let expected = [
        "",
        "------------------------------------------------------------",
        "# Report",
        "",
        "## Summary",
        "",
        "* Records processed:                      6",
        "* Records processed (missing info):       3",
        "* Records with errors:                    1",
        "* Records skipped (pre-existing):         0",
        "",
        "## Errors",
        "",
        "    # | title_number  | error                         ",
        "----- | ------------- | ------------------------------",
        "    0 | ABC123/00     | Could not find record information online.",
        "------------------------------------------------------------",
        "",
    ]
    .join("\n");
    assert_eq!(text, expected);
}

#[test]
fn renders_error_free_report_without_errors_section() {
    let text = report_with(0, 0, vec![], 5).render();
    let expected = [
        "",
        "------------------------------------------------------------",
        "# Report",
        "",
        "## Summary",
        "",
        "* Records processed:                      0",
        "* Records processed (missing info):       0",
        "* Records with errors:                    0",
        "* Records skipped (pre-existing):         5",
        "------------------------------------------------------------",
        "",
    ]
    .join("\n");
    assert_eq!(text, expected);
    assert!(!text.contains("## Errors"));
}

#[test]
fn renders_error_rows_with_aligned_columns() {
    let text = report_with(
        1,
        0,
        vec![
            (5, "short"),
            (123, "Could not find record information online."),
        ],
        0,
    )
    .render();
    let expected = [
        "",
        "------------------------------------------------------------",
        "# Report",
        "",
        "## Summary",
        "",
        "* Records processed:                      1",
        "* Records processed (missing info):       0",
        "* Records with errors:                    2",
        "* Records skipped (pre-existing):         0",
        "",
        "## Errors",
        "",
        "    # | title_number  | error                         ",
        "----- | ------------- | ------------------------------",
        "    5 | ABC123/05     | short                         ",
        "  123 | ABC123/123    | Could not find record information online.",
        "------------------------------------------------------------",
        "",
    ]
    .join("\n");
    assert_eq!(text, expected);
}

#[test]
fn render_is_idempotent() {
    let reporter = execute_run(40, 3);
    let first = reporter.report().render();
    let second = reporter.report().render();
    assert_eq!(first, second);
}

#[test]
fn wide_tallies_are_not_truncated() {
    let text = report_with(12345678, 0, vec![], 0).render();
    assert!(text.contains("* Records processed:                12345678\n"));
}

#[test]
fn non_ascii_error_message_is_written_as_is() {
    let text = report_with(0, 0, vec![(1, "caf\u{e9}")], 0).render();
    assert!(text.contains("    1 | ABC123/01     | caf\u{e9}\n"));
}
