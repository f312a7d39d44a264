use star_validate::decimal::{push_decimal, to_decimal};
use star_validate::report::{
    file_report, text_report, ErrorKind, ParseOutcome, ParseResult, ValidationError,
};

fn result(rule: &str, start: usize, end: usize) -> ParseResult {
    ParseResult { rule_name: rule.to_string(), start, end }
}

#[test]
fn assignment_text_is_reported_with_rule_and_span() {
    let r = text_report(Ok(result("assignment", 0, 5)));
    assert_eq!(r, Ok("Parsed successfully: rule=assignment, span=0-5".to_string()));
}

#[test]
fn truncated_text_is_a_syntax_error() {
    let r = text_report(Err("expected value at 1:5".to_string()));
    assert_eq!(
        r,
        Err(ValidationError {
            kind: ErrorKind::Syntax,
            message: "Parse error: expected value at 1:5".to_string(),
        })
    );
}

#[test]
fn mismatch_is_never_a_success() {
    for d in ["", "x", "unexpected end of input"] {
        let r = text_report(Err(d.to_string()));
        assert_eq!(r.unwrap_err().kind, ErrorKind::Syntax);
    }
}

#[test]
fn match_is_always_a_success() {
    for (rule, start, end) in [("data_block", 0, 0), ("loop", 3, 17), ("x", 12, 1000)] {
        let r = text_report(Ok(result(rule, start, end)));
        assert!(r.is_ok());
        assert!(r.unwrap().ends_with(&format!("rule={}, span={}-{}", rule, start, end)));
    }
}

#[test]
fn file_success_echoes_path() {
    let r = file_report("data/a.star", ParseOutcome::Success(result("assignment", 0, 5)));
    assert_eq!(
        r,
        Ok("Parsed file 'data/a.star' successfully: rule=assignment, span=0-5".to_string())
    );
}

#[test]
fn missing_file_is_an_io_error() {
    let r = file_report(
        "no/such/file.star",
        ParseOutcome::IoError("No such file or directory (os error 2)".to_string()),
    );
    assert_eq!(
        r,
        Err(ValidationError {
            kind: ErrorKind::Io,
            message: "File error: No such file or directory (os error 2)".to_string(),
        })
    );
}

#[test]
fn file_syntax_error_matches_text_syntax_error() {
    let d = "expected value at 1:5".to_string();
    let from_file = file_report("a.star", ParseOutcome::SyntaxError(d.clone()));
    let from_text = text_report(Err(d));
    assert_eq!(from_file, from_text);
    assert_eq!(from_file.unwrap_err().kind, ErrorKind::Syntax);
}

#[test]
fn file_and_text_agree_on_rule_and_span() {
    let r = result("save_frame", 2, 40);
    let from_file = file_report("b.star", ParseOutcome::Success(r.clone())).unwrap();
    let from_text = text_report(Ok(r)).unwrap();
    let tail = "rule=save_frame, span=2-40";
    assert!(from_file.ends_with(tail));
    assert!(from_text.ends_with(tail));
}

#[test]
fn empty_input_report_is_repeatable() {
    let first = text_report(Ok(result("empty", 0, 0)));
    let second = text_report(Ok(result("empty", 0, 0)));
    assert_eq!(first, second);
    assert_eq!(first, Ok("Parsed successfully: rule=empty, span=0-0".to_string()));
    let e1 = text_report(Err("empty input".to_string()));
    let e2 = text_report(Err("empty input".to_string()));
    assert_eq!(e1, e2);
}

#[test]
fn decimal_spelling() {
    assert_eq!(to_decimal(0), "0");
    assert_eq!(to_decimal(9), "9");
    assert_eq!(to_decimal(10), "10");
    assert_eq!(to_decimal(407), "407");
    assert_eq!(to_decimal(usize::MAX), usize::MAX.to_string());
}

#[test]
fn decimal_appends() {
    let mut s = "n=".to_string();
    push_decimal(&mut s, 1200);
    assert_eq!(s, "n=1200");
}

#[test]
fn large_offsets_are_spelled_in_full() {
    let r = text_report(Ok(result("r", 123456789, usize::MAX)));
    assert_eq!(
        r.unwrap(),
        format!("Parsed successfully: rule=r, span=123456789-{}", usize::MAX)
    );
}
