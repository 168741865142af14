//! Reading the log of a failed typesetting run.
//!
//! The compiler reports an error as a line that begins with `! `, followed
//! some lines later by a line `l.<number> <text>` that quotes the offending
//! source line. The scanner keeps the last such summary, the last line number
//! that can be read and the last quoted text. Lines that mention an emergency
//! stop are skipped altogether.

use vstd::prelude::*;

use crate::text::{
    chars_of, contains, find_from, first_index_of, has_infix, has_prefix,
    parse_decimal, parse_number, split, split_at_char, starts_with, string_of, trim, trim_bounds,
    views,
};

verus! {

/// What the scanner found in a log.
#[derive(Debug, Clone, PartialEq, Eq)]
pub struct Diagnostic {
    /// The last error line, marker included; empty where the log has none.
    pub summary: String,
    /// The text quoted after the last line-number marker; empty where the log
    /// has none.
    pub context: String,
    /// The line number of the last marker that holds a readable one.
    pub line_number: Option<usize>,
}

/// A `Diagnostic` as mathematical values.
pub struct DiagnosticView {
    pub summary: Seq<char>,
    pub context: Seq<char>,
    pub line_number: Option<usize>,
}

impl View for Diagnostic {
    type V = DiagnosticView;

    open spec fn view(&self) -> DiagnosticView {
        DiagnosticView {
            summary: self.summary@,
            context: self.context@,
            line_number: self.line_number,
        }
    }
}

/// The line mentions an emergency stop: it is noise, not an error of its own.
pub open spec fn is_noise(line: Seq<char>) -> bool {
    contains(line, "Emergency stop"@)
}

/// The line opens an error block.
pub open spec fn is_error_line(line: Seq<char>) -> bool {
    starts_with(line, "! "@) && !is_noise(line)
}

/// The line is a line-number marker.
pub open spec fn is_location_line(line: Seq<char>) -> bool {
    starts_with(line, "l."@) && !is_noise(line)
}

/// What follows the two characters of the marker.
pub open spec fn location_rest(line: Seq<char>) -> Seq<char> {
    line.skip(2)
}

/// The marker is followed by a space and so by quoted text.
pub open spec fn has_context(line: Seq<char>) -> bool {
    first_index_of(location_rest(line), ' ') < location_rest(line).len()
}

/// The line number that a marker holds: what stands between `l.` and the
/// first space, trimmed and read as a decimal number.
pub open spec fn line_number_of(line: Seq<char>) -> Option<usize> {
    let rest = location_rest(line);
    parse_decimal(trim(rest.take(first_index_of(rest, ' '))))
}

/// The text that a marker quotes: what follows its first space, trimmed.
pub open spec fn context_of(line: Seq<char>) -> Seq<char> {
    let rest = location_rest(line);
    trim(rest.skip(first_index_of(rest, ' ') + 1))
}

/// The last error line among `lines`, or the empty text.
pub open spec fn last_summary(lines: Seq<Seq<char>>) -> Seq<char>
    decreases lines.len(),
{
    if lines.len() == 0 {
        Seq::empty()
    } else if is_error_line(lines.last()) {
        lines.last()
    } else {
        last_summary(lines.drop_last())
    }
}

/// The number of the last marker among `lines` that holds a readable one.
pub open spec fn last_line_number(lines: Seq<Seq<char>>) -> Option<usize>
    decreases lines.len(),
{
    if lines.len() == 0 {
        None
    } else if is_location_line(lines.last()) && line_number_of(lines.last()) is Some {
        line_number_of(lines.last())
    } else {
        last_line_number(lines.drop_last())
    }
}

/// The text quoted by the last marker among `lines` that quotes any, or the
/// empty text.
pub open spec fn last_context(lines: Seq<Seq<char>>) -> Seq<char>
    decreases lines.len(),
{
    if lines.len() == 0 {
        Seq::empty()
    } else if is_location_line(lines.last()) && has_context(lines.last()) {
        context_of(lines.last())
    } else {
        last_context(lines.drop_last())
    }
}

/// What a list of log lines reports.
pub open spec fn report_of_lines(lines: Seq<Seq<char>>) -> DiagnosticView {
    DiagnosticView {
        summary: last_summary(lines),
        context: last_context(lines),
        line_number: last_line_number(lines),
    }
}

/// What a log reports.
pub open spec fn report(log: Seq<char>) -> DiagnosticView {
    report_of_lines(split(log, '\n'))
}

/// Scans the captured output of a failed typesetting run.
pub fn parse_error_log(log: &str) -> (found: Diagnostic)
    ensures
        found@ == report(log@),
{
    let text = chars_of(log);
    let lines = split_at_char(text.as_slice(), '\n');
    let bang = chars_of("! ");
    let mark = chars_of("l.");
    let noise = chars_of("Emergency stop");
    proof {
        reveal_strlit("l.");
    }
    let ghost all = views(lines@);
    let mut found = Diagnostic { summary: String::new(), context: String::new(), line_number: None };
    let mut k: usize = 0;
    assert(all.take(0) == Seq::<Seq<char>>::empty());
    while k < lines.len()
        invariant
            k <= lines@.len(),
            all == views(lines@),
            bang@ == "! "@,
            mark@ == "l."@,
            mark@.len() == 2,
            noise@ == "Emergency stop"@,
            found@ == report_of_lines(all.take(k as int)),
        decreases lines@.len() - k,
    {
        let line = lines[k].as_slice();
        let ghost seen = all.take(k + 1);
        assert(seen.drop_last() == all.take(k as int));
        assert(seen.last() == line@);
        if !has_infix(line, noise.as_slice()) {
            if has_prefix(line, bang.as_slice()) {
                found.summary = string_of(line, 0, line.len());
                assert(line@.subrange(0, line@.len() as int) == line@);
            }
            if has_prefix(line, mark.as_slice()) {
                let space = find_from(line, 2, ' ');
                assert(line@.subrange(2, space as int) == location_rest(line@).take(space - 2));
                let head = trim_bounds(line, 2, space);
                let number = parse_number(line, head.0, head.1);
                if number.is_some() {
                    found.line_number = number;
                }
                if space < line.len() {
                    assert(line@.subrange(space + 1, line@.len() as int) == location_rest(
                        line@,
                    ).skip(space - 2 + 1));
                    let tail = trim_bounds(line, space + 1, line.len());
                    found.context = string_of(line, tail.0, tail.1);
                }
            }
        }
        k += 1;
    }
    assert(all.take(k as int) == all);
    found
}

/// The report of a log in which nothing was found.
pub open spec fn nothing_found() -> DiagnosticView {
    DiagnosticView { summary: Seq::empty(), context: Seq::empty(), line_number: None }
}

/// Where a log reports several errors the last one wins: the summary is the
/// error line after which no other error line comes.
pub proof fn lemma_last_error_line_wins(lines: Seq<Seq<char>>, k: int)
    requires
        0 <= k < lines.len(),
        is_error_line(lines[k]),
        forall|j: int| k < j < lines.len() ==> !is_error_line(#[trigger] lines[j]),
    ensures
        last_summary(lines) == lines[k],
    decreases lines.len(),
{
    if k < lines.len() - 1 {
        assert(!is_error_line(lines[lines.len() - 1]));
        lemma_last_error_line_wins(lines.drop_last(), k);
    }
}

/// The line number is that of the last marker that holds a readable one: a
/// later marker whose number cannot be read leaves it as it was.
pub proof fn lemma_last_readable_number_wins(lines: Seq<Seq<char>>, k: int)
    requires
        0 <= k < lines.len(),
        is_location_line(lines[k]),
        line_number_of(lines[k]) is Some,
        forall|j: int|
            k < j < lines.len() ==> !(is_location_line(#[trigger] lines[j]) && line_number_of(
                lines[j],
            ) is Some),
    ensures
        last_line_number(lines) == line_number_of(lines[k]),
    decreases lines.len(),
{
    if k < lines.len() - 1 {
        let last = lines[lines.len() - 1];
        assert(!(is_location_line(last) && line_number_of(last) is Some));
        lemma_last_readable_number_wins(lines.drop_last(), k);
    }
}

/// The context is the text quoted by the last marker that quotes any.
pub proof fn lemma_last_quoted_text_wins(lines: Seq<Seq<char>>, k: int)
    requires
        0 <= k < lines.len(),
        is_location_line(lines[k]),
        has_context(lines[k]),
        forall|j: int|
            k < j < lines.len() ==> !(is_location_line(#[trigger] lines[j]) && has_context(
                lines[j],
            )),
    ensures
        last_context(lines) == context_of(lines[k]),
    decreases lines.len(),
{
    if k < lines.len() - 1 {
        let last = lines[lines.len() - 1];
        assert(!(is_location_line(last) && has_context(last)));
        lemma_last_quoted_text_wins(lines.drop_last(), k);
    }
}

/// A log without error lines and markers reports nothing: the summary and the
/// context are empty and the line number is unknown.
pub proof fn lemma_unmarked_log_reports_nothing(lines: Seq<Seq<char>>)
    requires
        forall|j: int|
            0 <= j < lines.len() ==> !is_error_line(#[trigger] lines[j]) && !is_location_line(
                lines[j],
            ),
    ensures
        report_of_lines(lines) == nothing_found(),
    decreases lines.len(),
{
    if lines.len() > 0 {
        let last = lines[lines.len() - 1];
        assert(!is_error_line(last) && !is_location_line(last));
        lemma_unmarked_log_reports_nothing(lines.drop_last());
    }
}

/// Lines that mention an emergency stop count for nothing: a log that holds
/// no other lines reports nothing.
pub proof fn lemma_noise_reports_nothing(lines: Seq<Seq<char>>)
    requires
        forall|j: int| 0 <= j < lines.len() ==> is_noise(#[trigger] lines[j]),
    ensures
        report_of_lines(lines) == nothing_found(),
{
    lemma_unmarked_log_reports_nothing(lines);
}

} // verus!
