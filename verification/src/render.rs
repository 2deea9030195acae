//! Report emission: renders a [`Report`] as the bordered textual block that
//! ends every run.
//!
//! The text holds a `# Report` heading, a `## Summary` section with the four
//! tallies in labelled, right-aligned columns, and — only when at least one
//! record failed — an `## Errors` table with one row per recorded error, in
//! arrival order.  Rendering is a pure read of the report: the result is
//! pinned, character for character, to [`spec_render`] of the report's state.

use vstd::prelude::*;
use vstd::string::StringExecFns;
use vstd::utf8::is_ascii_chars;
use vstd::utf8::is_ascii_chars_concat;
use vstd::utf8::is_ascii_chars_encode_utf8;

use crate::report::Report;
use crate::report::ReportView;

verus! {

/// The decimal digit `d` as a one-character text; digits past nine render as
/// `9`, a case no caller reaches.
pub open spec fn spec_digit(d: int) -> Seq<char> {
    if d == 0 {
        "0"@
    } else if d == 1 {
        "1"@
    } else if d == 2 {
        "2"@
    } else if d == 3 {
        "3"@
    } else if d == 4 {
        "4"@
    } else if d == 5 {
        "5"@
    } else if d == 6 {
        "6"@
    } else if d == 7 {
        "7"@
    } else if d == 8 {
        "8"@
    } else {
        "9"@
    }
}

/// The decimal rendering of `n`, most significant digit first, with no sign
/// and no leading zero except for `n == 0` itself.
pub open spec fn spec_dec(n: nat) -> Seq<char>
    decreases n,
{
    if n < 10 {
        spec_digit(n as int)
    } else {
        spec_dec(n / 10) + spec_digit((n % 10) as int)
    }
}

/// `count` spaces; none when `count` is not positive.
pub open spec fn spec_spaces(count: int) -> Seq<char>
    decreases count,
{
    if count <= 0 {
        Seq::empty()
    } else {
        spec_spaces(count - 1) + " "@
    }
}

/// `n` rendered in decimal, right-aligned in a column of `width` characters;
/// a number wider than the column is not truncated.
pub open spec fn spec_pad_num(n: nat, width: int) -> Seq<char> {
    spec_spaces(width - spec_dec(n).len()) + spec_dec(n)
}

/// `text` left-aligned in a column of `width` characters; text wider than the
/// column is not truncated.
pub open spec fn spec_pad_right(text: Seq<char>, width: int) -> Seq<char> {
    text + spec_spaces(width - text.len())
}

/// `n` rendered in decimal with at least two digits, zero-padded.
pub open spec fn spec_zero_padded2(n: nat) -> Seq<char> {
    if n < 10 {
        "0"@ + spec_dec(n)
    } else {
        spec_dec(n)
    }
}

/// The `title_number` cell for the record at index `n`, left-aligned in its
/// thirteen-character column.
pub open spec fn spec_title_cell(n: nat) -> Seq<char> {
    spec_pad_right("ABC123/"@ + spec_zero_padded2(n), 13)
}

/// The `error` cell for a message: ASCII messages are left-aligned in the
/// thirty-character column; a message in a wider alphabet is written as is.
pub open spec fn spec_error_cell(message: Seq<char>) -> Seq<char> {
    if is_ascii_chars(message) {
        message + spec_spaces(30 - message.len())
    } else {
        message
    }
}

/// The `## Summary` block: border, headings, and the four tallies.
pub open spec fn spec_summary(r: ReportView) -> Seq<char> {
    "\n------------------------------------------------------------\n# Report\n\n## Summary\n\n* Records processed:                "@
        + spec_pad_num(r.success as nat, 7)
        + "\n* Records processed (missing info): "@ + spec_pad_num(r.partial as nat, 7)
        + "\n* Records with errors:              "@ + spec_pad_num(r.errors.len() as nat, 7)
        + "\n* Records skipped (pre-existing):   "@ + spec_pad_num(r.skipped as nat, 7) + "\n"@
}

/// One row of the `## Errors` table: record index, title number, message.
pub open spec fn spec_error_row(error: (int, Seq<char>)) -> Seq<char> {
    spec_pad_num(error.0 as nat, 5) + " | "@ + spec_title_cell(error.0 as nat) + " | "@
        + spec_error_cell(error.1) + "\n"@
}

/// The rows of the `## Errors` table, in the error list's order.
pub open spec fn spec_error_rows(errors: Seq<(int, Seq<char>)>) -> Seq<char>
    decreases errors.len(),
{
    if errors.len() == 0 {
        Seq::empty()
    } else {
        spec_error_rows(errors.drop_last()) + spec_error_row(errors.last())
    }
}

/// The errors-section heading and the rows for the given error-list prefix;
/// the heading stands even for an empty prefix, unlike in
/// [`spec_errors_section`], which drops the whole section when no record
/// failed.
pub open spec fn spec_errors_section_open(errors: Seq<(int, Seq<char>)>) -> Seq<char> {
    "\n## Errors\n\n    # | title_number  | error                         \n----- | ------------- | ------------------------------\n"@
        + spec_error_rows(errors)
}

/// The whole `## Errors` section: empty when no record failed, otherwise the
/// heading, the column header, and one row per error.
pub open spec fn spec_errors_section(errors: Seq<(int, Seq<char>)>) -> Seq<char> {
    if errors.len() == 0 {
        Seq::empty()
    } else {
        "\n## Errors\n\n    # | title_number  | error                         \n----- | ------------- | ------------------------------\n"@
            + spec_error_rows(errors)
    }
}

/// The full report text: summary, errors section, closing border.
pub open spec fn spec_render(r: ReportView) -> Seq<char> {
    spec_summary(r) + spec_errors_section(r.errors)
        + "------------------------------------------------------------\n"@
}

/// The decimal digit `d` as text.
fn digit_str(d: u64) -> (s: &'static str)
    requires
        d < 10,
    ensures
        s@ == spec_digit(d as int),
        is_ascii_chars(s@),
{
    let s: &'static str = if d == 0 {
        "0"
    } else if d == 1 {
        "1"
    } else if d == 2 {
        "2"
    } else if d == 3 {
        "3"
    } else if d == 4 {
        "4"
    } else if d == 5 {
        "5"
    } else if d == 6 {
        "6"
    } else if d == 7 {
        "7"
    } else if d == 8 {
        "8"
    } else {
        "9"
    };
    proof {
        reveal_strlit("0");
        reveal_strlit("1");
        reveal_strlit("2");
        reveal_strlit("3");
        reveal_strlit("4");
        reveal_strlit("5");
        reveal_strlit("6");
        reveal_strlit("7");
        reveal_strlit("8");
        reveal_strlit("9");
    }
    s
}

/// The decimal rendering of `n`.
fn dec_u64(n: u64) -> (s: String)
    ensures
        s@ == spec_dec(n as nat),
        is_ascii_chars(s@),
    decreases n,
{
    if n < 10 {
        digit_str(n).to_owned()
    } else {
        let mut s = dec_u64(n / 10);
        let digit = digit_str(n % 10);
        s.append(digit);
        proof {
            is_ascii_chars_concat(s@, spec_dec((n / 10) as nat), spec_digit((n % 10) as int));
        }
        s
    }
}

/// `count` spaces.
fn spaces(count: usize) -> (s: String)
    ensures
        s@ == spec_spaces(count as int),
    decreases count,
{
    if count == 0 {
        String::new()
    } else {
        let mut s = spaces(count - 1);
        s.append(" ");
        s
    }
}

/// Character count of an ASCII text, where the UTF-8 byte length and the
/// character count coincide.
fn ascii_len(s: &str) -> (len: usize)
    requires
        is_ascii_chars(s@),
    ensures
        len == s@.len(),
{
    let bytes = s.as_bytes();
    proof {
        is_ascii_chars_encode_utf8(s@);
    }
    bytes.len()
}

/// `n` in decimal, right-aligned in a column of `width` characters.
fn pad_num(n: u64, width: usize) -> (s: String)
    ensures
        s@ == spec_pad_num(n as nat, width as int),
{
    let digits = dec_u64(n);
    let digits_len = ascii_len(digits.as_str());
    let pad: usize = if digits_len < width {
        width - digits_len
    } else {
        0
    };
    let mut s = spaces(pad);
    s.append(digits.as_str());
    s
}

/// `n` in decimal, zero-padded to at least two digits.
fn zero_padded2(n: u64) -> (s: String)
    ensures
        s@ == spec_zero_padded2(n as nat),
        is_ascii_chars(s@),
{
    if n < 10 {
        let mut s = "0".to_owned();
        let digits = dec_u64(n);
        s.append(digits.as_str());
        proof {
            reveal_strlit("0");
            is_ascii_chars_concat(s@, "0"@, spec_dec(n as nat));
        }
        s
    } else {
        dec_u64(n)
    }
}

/// The `title_number` cell for the record at index `n`.
fn title_cell(n: u64) -> (s: String)
    ensures
        s@ == spec_title_cell(n as nat),
{
    let mut s = "ABC123/".to_owned();
    let number = zero_padded2(n);
    s.append(number.as_str());
    proof {
        reveal_strlit("ABC123/");
        assert(is_ascii_chars("ABC123/"@));
        is_ascii_chars_concat(s@, "ABC123/"@, spec_zero_padded2(n as nat));
    }
    let cell_len = ascii_len(s.as_str());
    let pad: usize = if cell_len < 13 {
        13 - cell_len
    } else {
        0
    };
    let fill = spaces(pad);
    s.append(fill.as_str());
    s
}

impl Report {
    /// Renders this report.  The text is a function of the report's state
    /// alone: rendering neither mutates the report nor reads anything else,
    /// so emitting the report twice yields identical text.
    pub fn render(&self) -> (text: String)
        ensures
            text@ == spec_render(self@),
    {
        let ghost r = self@;
        let mut out =
            "\n------------------------------------------------------------\n# Report\n\n## Summary\n\n* Records processed:                ".to_owned();
        let piece = pad_num(self.record_processed_successful_count as u64, 7);
        out.append(piece.as_str());
        out.append("\n* Records processed (missing info): ");
        let piece = pad_num(self.record_processed_info_missing_count as u64, 7);
        out.append(piece.as_str());
        out.append("\n* Records with errors:              ");
        let piece = pad_num(self.records_processed_failed.len() as u64, 7);
        out.append(piece.as_str());
        out.append("\n* Records skipped (pre-existing):   ");
        let piece = pad_num(self.record_skipped_count as u64, 7);
        out.append(piece.as_str());
        out.append("\n");
        proof {
            assert(out@ == spec_summary(r));
        }
        if self.records_processed_failed.len() > 0 {
            out.append(
                "\n## Errors\n\n    # | title_number  | error                         \n----- | ------------- | ------------------------------\n",
            );
            proof {
                assert(out@ =~= spec_summary(r) + spec_errors_section_open(r.errors.take(0)));
            }
            let count = self.records_processed_failed.len();
            let mut i: usize = 0;
            while i < count
                invariant
                    i <= count,
                    count == self.records_processed_failed.len(),
                    r == self@,
                    r.errors.len() == count,
                    out@ == spec_summary(r) + spec_errors_section_open(r.errors.take(i as int)),
                decreases count - i,
            {
                let (record, message) = self.records_processed_failed[i];
                let mut row = pad_num(record.0 as u64, 5);
                row.append(" | ");
                let title = title_cell(record.0 as u64);
                row.append(title.as_str());
                row.append(" | ");
                if message.is_ascii() {
                    row.append(message);
                    let message_len = ascii_len(message);
                    let pad: usize = if message_len < 30 {
                        30 - message_len
                    } else {
                        0
                    };
                    let fill = spaces(pad);
                    row.append(fill.as_str());
                } else {
                    row.append(message);
                }
                row.append("\n");
                proof {
                    assert(row@ =~= spec_error_row(r.errors[i as int]));
                }
                out.append(row.as_str());
                proof {
                    assert(r.errors.take(i + 1).drop_last() =~= r.errors.take(i as int));
                    assert(r.errors.take(i + 1).last() == r.errors[i as int]);
                    assert(out@ =~= spec_summary(r) + spec_errors_section_open(
                        r.errors.take(i + 1),
                    ));
                }
                i = i + 1;
            }
            proof {
                assert(r.errors.take(count as int) =~= r.errors);
            }
        }
        out.append("------------------------------------------------------------\n");
        proof {
            assert(out@ =~= spec_render(r));
        }
        out
    }
}
} // verus!
