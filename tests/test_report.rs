use api_client_utils::test_error::{frames_report, frames_report_of, TestError, TestResult};
use api_client_utils::text::parse_usize;

const BACKTRACE: &str = r#"Backtrace [
    { fn: "test_utils::tests::it_works", file: "./src/lib.rs", line: 12 },
    { fn: "core::ops::function::FnOnce::call_once", file: "/rustc/0123/library/core/src/ops/function.rs", line: 250 },
    { fn: "app::main", file: "././app/main.rs", line: 007 },
    { fn: "app::deep", file: "./app/deep.rs", line: 99999999999999999999999 },
]"#;

#[test]
fn frames_of_own_files_are_reported() {
    let report = frames_report_of(BACKTRACE, "/work");
    assert_eq!(
        report,
        "[/work/src/lib.rs:12] test_utils::tests::it_works\n\
         [/work/app/main.rs:7] app::main\n\
         [/work/app/deep.rs:] app::deep\n"
    );
}

#[test]
fn text_without_frames_reports_nothing() {
    assert_eq!(frames_report_of("disabled backtrace", "/work"), "");
    assert_eq!(frames_report_of("", "/work"), "");
}

#[test]
fn frames_report_formats_captures() {
    let captures = vec![
        (Some("f".to_string()), Some("./a.rs".to_string()), Some("3".to_string())),
        (None, Some("./b.rs".to_string()), None),
        (Some("g".to_string()), Some("/abs/c.rs".to_string()), Some("4".to_string())),
        (Some("h".to_string()), None, Some("5".to_string())),
    ];
    assert_eq!(frames_report(&captures, "/cwd"), "[/cwd/a.rs:3] f\n[/cwd/b.rs:] \n");
}

#[test]
fn parse_usize_matches_str_parse() {
    for text in ["0", "12", "+7", "007", "", "+", "-1", "1a", " 1", "١٢", &usize::MAX.to_string(), "18446744073709551616"] {
        assert_eq!(parse_usize(text), text.parse::<usize>().ok(), "text = {text:?}");
    }
}

fn failing_step() -> TestResult {
    let _value: serde_json::Value = serde_json::from_str("{")?;
    Ok(())
}

#[test]
fn test_error_reports_message_in_red() {
    let error: TestError = failing_step().unwrap_err();
    let report = error.report("/work");
    let message = error.0.to_string();
    assert!(report.starts_with(&format!("\x1b[0;91m{message}\x1b[0m\n")));
    assert!(message.contains("EOF"));
}
