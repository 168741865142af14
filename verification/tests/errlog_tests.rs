use texcache::errlog::{parse_error_log, Diagnostic};

fn diagnostic(summary: &str, context: &str, line_number: Option<usize>) -> Diagnostic {
    Diagnostic { summary: summary.to_string(), context: context.to_string(), line_number }
}

#[test]
fn undefined_control_sequence_with_marker() {
    let log = "This is pdfTeX\n! Undefined control sequence\nl.7 \\foo\n";
    let found = parse_error_log(log);
    assert_eq!(found.summary, "! Undefined control sequence");
    assert_eq!(found.line_number, Some(7));
    assert_eq!(found.context, "\\foo");
}

#[test]
fn emergency_stop_alone_reports_nothing() {
    assert_eq!(parse_error_log("! Emergency stop."), diagnostic("", "", None));
    assert_eq!(
        parse_error_log("some output\n!  ==> Fatal error; Emergency stop\n"),
        diagnostic("", "", None)
    );
}

#[test]
fn marker_that_mentions_emergency_stop_is_skipped() {
    let log = "! Missing $ inserted\nl.3 a_b\nl.9 Emergency stop here";
    assert_eq!(parse_error_log(log), diagnostic("! Missing $ inserted", "a_b", Some(3)));
}

#[test]
fn empty_log_reports_nothing() {
    assert_eq!(parse_error_log(""), diagnostic("", "", None));
}

#[test]
fn log_without_error_block_reports_nothing() {
    let log = "This is pdfTeX, Version 3.14\n(./doc.tex\nOutput written on doc.dvi\n";
    assert_eq!(parse_error_log(log), diagnostic("", "", None));
}

#[test]
fn last_error_block_wins() {
    let log = "! First error\nl.2 one\n! Second error\nl.15 two three\n";
    assert_eq!(parse_error_log(log), diagnostic("! Second error", "two three", Some(15)));
}

#[test]
fn typical_compiler_log() {
    let log = "(./a.tex\n! Undefined control sequence.\nl.5 \\badmacro\n               x\n? \n! Emergency stop.\nl.5 \\badmacro\n               x\nNo pages of output.\n";
    assert_eq!(
        parse_error_log(log),
        diagnostic("! Undefined control sequence.", "\\badmacro", Some(5))
    );
}

#[test]
fn summary_without_marker_keeps_line_unknown() {
    assert_eq!(
        parse_error_log("! LaTeX Error: File `x.sty' not found.\n"),
        diagnostic("! LaTeX Error: File `x.sty' not found.", "", None)
    );
}

#[test]
fn marker_without_quoted_text() {
    assert_eq!(parse_error_log("! Oops\nl.12"), diagnostic("! Oops", "", Some(12)));
}

#[test]
fn marker_with_empty_quoted_text_overwrites_context() {
    let log = "l.1 first\nl.2 ";
    assert_eq!(parse_error_log(log), diagnostic("", "", Some(2)));
}

#[test]
fn unreadable_line_number_is_treated_as_missing() {
    assert_eq!(parse_error_log("! Bad\nl.x7 text"), diagnostic("! Bad", "text", None));
    assert_eq!(parse_error_log("! Bad\nl. text"), diagnostic("! Bad", "text", None));
    assert_eq!(parse_error_log("! Bad\nl.-3 text"), diagnostic("! Bad", "text", None));
    assert_eq!(parse_error_log("! Bad\nl.7a text"), diagnostic("! Bad", "text", None));
    assert_eq!(parse_error_log("! Bad\nl.+ text"), diagnostic("! Bad", "text", None));
}

#[test]
fn unreadable_line_number_keeps_the_earlier_one() {
    let log = "l.4 good\nl.four bad";
    assert_eq!(parse_error_log(log), diagnostic("", "bad", Some(4)));
}

#[test]
fn line_number_that_does_not_fit_is_treated_as_missing() {
    let log = "l.99999999999999999999999999999999 far";
    assert_eq!(parse_error_log(log), diagnostic("", "far", None));
}

#[test]
fn largest_line_number_is_read() {
    let log = format!("l.{} end", usize::MAX);
    assert_eq!(parse_error_log(&log), diagnostic("", "end", Some(usize::MAX)));
}

#[test]
fn line_number_takes_plus_sign_and_leading_zeros() {
    assert_eq!(parse_error_log("l.+12 a"), diagnostic("", "a", Some(12)));
    assert_eq!(parse_error_log("l.007 b"), diagnostic("", "b", Some(7)));
    assert_eq!(parse_error_log("l.0 c"), diagnostic("", "c", Some(0)));
}

#[test]
fn number_and_text_are_trimmed() {
    assert_eq!(parse_error_log("l.\t8\t   \\alpha  \r"), diagnostic("", "\\alpha", Some(8)));
}

#[test]
fn only_the_first_space_separates_number_and_text() {
    assert_eq!(parse_error_log("l.3  a b  c "), diagnostic("", "a b  c", Some(3)));
}

#[test]
fn markers_must_start_the_line() {
    let log = " ! indented\nxl.7 foo\n!no space\nl7 bar";
    assert_eq!(parse_error_log(log), diagnostic("", "", None));
}

#[test]
fn summary_is_the_whole_line() {
    assert_eq!(parse_error_log("! \n"), diagnostic("! ", "", None));
    assert_eq!(parse_error_log("! a\r\n"), diagnostic("! a\r", "", None));
}

#[test]
fn non_ascii_text_is_kept() {
    let log = "! Caract\u{e8}re invalide\nl.3 \u{3b1}\u{3b2} \u{2003}";
    assert_eq!(
        parse_error_log(log),
        diagnostic("! Caract\u{e8}re invalide", "\u{3b1}\u{3b2}", Some(3))
    );
}
