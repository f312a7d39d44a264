use vstd::prelude::*;

use crate::decimal::{decimal, push_decimal};

verus! {

/// What the grammar engine hands back on success: the entry rule that matched
/// and the span `start..end` of the input that it covered.
#[derive(Debug, Clone, PartialEq, Eq)]
pub struct ParseResult {
    pub rule_name: String,
    pub start: usize,
    pub end: usize,
}

/// The result of an attempt to read and parse one input, as plain values.
#[derive(Debug, Clone, PartialEq, Eq)]
pub enum ParseOutcome {
    /// The input was read and matched the entry rule.
    Success(ParseResult),
    /// The input was read and did not match; carries the engine's diagnostic.
    SyntaxError(String),
    /// The input could not be read; carries the underlying cause.
    IoError(String),
}

/// The two categories of failure that a caller can tell apart.
#[derive(Debug, Clone, Copy, PartialEq, Eq, Structural)]
pub enum ErrorKind {
    Syntax,
    Io,
}

/// A typed failure: its category and a message that begins with a fixed
/// prefix for that category.
#[derive(Debug, Clone, PartialEq, Eq)]
pub struct ValidationError {
    pub kind: ErrorKind,
    pub message: String,
}

/// What a report is: its message on success, or the category and message of
/// its failure.
pub type ReportView = Result<Seq<char>, (ErrorKind, Seq<char>)>;

pub open spec fn report_view(r: Result<String, ValidationError>) -> ReportView {
    match r {
        Ok(m) => Ok(m@),
        Err(e) => Err((e.kind, e.message@)),
    }
}

/// `rule=<rule>, span=<start>-<end>`, with the offsets in decimal.
pub open spec fn span_text(r: ParseResult) -> Seq<char> {
    "rule="@ + r.rule_name@ + ", span="@ + decimal(r.start as nat) + "-"@ + decimal(
        r.end as nat,
    )
}

pub open spec fn text_success(r: ParseResult) -> Seq<char> {
    "Parsed successfully: "@ + span_text(r)
}

pub open spec fn file_success(path: Seq<char>, r: ParseResult) -> Seq<char> {
    "Parsed file '"@ + path + "' successfully: "@ + span_text(r)
}

pub open spec fn syntax_message(diagnostic: Seq<char>) -> Seq<char> {
    "Parse error: "@ + diagnostic
}

pub open spec fn io_message(cause: Seq<char>) -> Seq<char> {
    "File error: "@ + cause
}

/// The report on parsing text held in memory.
pub open spec fn text_report_spec(parsed: Result<ParseResult, String>) -> ReportView {
    match parsed {
        Ok(r) => Ok(text_success(r)),
        Err(d) => Err((ErrorKind::Syntax, syntax_message(d@))),
    }
}

/// The report on reading and parsing the file at `path`.
pub open spec fn file_report_spec(path: Seq<char>, outcome: ParseOutcome) -> ReportView {
    match outcome {
        ParseOutcome::Success(r) => Ok(file_success(path, r)),
        ParseOutcome::SyntaxError(d) => Err((ErrorKind::Syntax, syntax_message(d@))),
        ParseOutcome::IoError(c) => Err((ErrorKind::Io, io_message(c@))),
    }
}

/// The outcome of parsing text that was read without trouble.
pub open spec fn read_outcome(parsed: Result<ParseResult, String>) -> ParseOutcome {
    match parsed {
        Ok(r) => ParseOutcome::Success(r),
        Err(d) => ParseOutcome::SyntaxError(d),
    }
}

fn push_span_text(out: &mut String, r: &ParseResult)
    ensures
        final(out)@ == old(out)@ + span_text(*r),
{
    out.append("rule=");
    out.append(r.rule_name.as_str());
    out.append(", span=");
    push_decimal(out, r.start);
    out.append("-");
    push_decimal(out, r.end);
    assert(final(out)@ =~= old(out)@ + span_text(*r));
}

fn prefixed(prefix: &str, tail: &String) -> (r: String)
    ensures
        r@ == prefix@ + tail@,
{
    let mut out = String::from_str(prefix);
    out.append(tail.as_str());
    out
}

/// Reports on parsing text held in memory: on a match, a message that names
/// the rule and the span; otherwise a syntax error that carries the engine's
/// diagnostic.
pub fn text_report(parsed: Result<ParseResult, String>) -> (r: Result<String, ValidationError>)
    ensures
        report_view(r) == text_report_spec(parsed),
{
    match parsed {
        Ok(res) => {
            let mut out = String::from_str("Parsed successfully: ");
            push_span_text(&mut out, &res);
            assert(out@ =~= text_success(res));
            Ok(out)
        },
        Err(d) => Err(ValidationError { kind: ErrorKind::Syntax, message: prefixed("Parse error: ", &d) }),
    }
}

/// Reports on reading and parsing the file at `path`: on a match, a message
/// that echoes the path and names the rule and the span; a syntax error when
/// the contents did not match; an I/O error when the file could not be read.
pub fn file_report(path: &str, outcome: ParseOutcome) -> (r: Result<String, ValidationError>)
    ensures
        report_view(r) == file_report_spec(path@, outcome),
{
    match outcome {
        ParseOutcome::Success(res) => {
            let mut out = String::from_str("Parsed file '");
            out.append(path);
            out.append("' successfully: ");
            push_span_text(&mut out, &res);
            assert(out@ =~= file_success(path@, res));
            Ok(out)
        },
        ParseOutcome::SyntaxError(d) => Err(ValidationError { kind: ErrorKind::Syntax, message: prefixed("Parse error: ", &d) }),
        ParseOutcome::IoError(c) => Err(ValidationError { kind: ErrorKind::Io, message: prefixed("File error: ", &c) }),
    }
}

} // verus!
