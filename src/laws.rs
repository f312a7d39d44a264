use vstd::prelude::*;

use crate::report::{
    file_report_spec, read_outcome, span_text, text_report_spec, ErrorKind, ParseOutcome,
    ParseResult,
};

verus! {

/// Text that matched the entry rule is reported as a success, never as a
/// failure, and the message carries the matched rule and span.
pub proof fn law_match_is_success(r: ParseResult)
    ensures
        text_report_spec(Ok(r)) == Ok::<Seq<char>, (ErrorKind, Seq<char>)>(
            "Parsed successfully: "@ + span_text(r),
        ),
{
}

/// Text that did not match is reported as a syntax error, never as a success.
pub proof fn law_mismatch_is_syntax_error(diagnostic: String)
    ensures
        text_report_spec(Err(diagnostic)) is Err,
        text_report_spec(Err(diagnostic))->Err_0.0 == ErrorKind::Syntax,
{
}

/// A file that cannot be read is reported as an I/O error, never as a syntax
/// error nor as a success.
pub proof fn law_unreadable_file_is_io_error(path: Seq<char>, cause: String)
    ensures
        file_report_spec(path, ParseOutcome::IoError(cause)) is Err,
        file_report_spec(path, ParseOutcome::IoError(cause))->Err_0.0 == ErrorKind::Io,
{
}

/// A file whose contents were read and parsed is reported as the same text
/// parsed in memory is: both succeed or both fail; on success both messages end
/// in the same rule and span; on failure both are the same syntax error.
pub proof fn law_file_agrees_with_text(path: Seq<char>, parsed: Result<ParseResult, String>)
    ensures
        file_report_spec(path, read_outcome(parsed)) is Ok <==> text_report_spec(parsed) is Ok,
        parsed is Ok ==> {
            &&& text_report_spec(parsed)->Ok_0 == "Parsed successfully: "@ + span_text(
                parsed->Ok_0,
            )
            &&& file_report_spec(path, read_outcome(parsed))->Ok_0 == "Parsed file '"@ + path
                + "' successfully: "@ + span_text(parsed->Ok_0)
        },
        parsed is Err ==> file_report_spec(path, read_outcome(parsed)) == text_report_spec(parsed),
{
}

/// The report depends on what the engine handed back and nothing else: two
/// outcomes with the same rule name, span and diagnostic give the same report.
pub proof fn law_report_is_repeatable(p: Result<ParseResult, String>, q: Result<ParseResult, String>)
    requires
        p is Ok <==> q is Ok,
        p is Ok ==> {
            &&& p->Ok_0.rule_name@ == q->Ok_0.rule_name@
            &&& p->Ok_0.start == q->Ok_0.start
            &&& p->Ok_0.end == q->Ok_0.end
        },
        p is Err ==> p->Err_0@ == q->Err_0@,
    ensures
        text_report_spec(p) == text_report_spec(q),
{
}

} // verus!
