use sanctifier_cli::exit_codes::{command_exit_code, ERROR, FINDINGS_FOUND, SUCCESS};
use sanctifier_cli::analysis::{analyze_single_file, run_with_timeout};
use sanctifier_cli::output::{
    not_a_project_json, not_a_project_message, not_a_project_spans, output_format, OutputFormat,
};
use sanctifier_cli::text_report::Style;

#[test]
fn format_selection() {
    assert_eq!(output_format("json"), OutputFormat::Json);
    assert_eq!(output_format("text"), OutputFormat::Text);
    assert_eq!(output_format("JSON"), OutputFormat::Text);
    assert_eq!(output_format(""), OutputFormat::Text);
}

#[test]
fn not_a_project_reports() {
    assert_eq!(
        not_a_project_message("\"./x\""),
        "\"./x\" is not a valid Soroban project. (Missing Cargo.toml with 'soroban-sdk' dependency)"
    );
    let line = not_a_project_json("\"./x\"");
    assert_eq!(
        line,
        "{\"error\": \"\\\"./x\\\" is not a valid Soroban project. (Missing Cargo.toml with 'soroban-sdk' dependency)\"}"
    );
    let parsed: serde_json::Value = serde_json::from_str(&line).unwrap();
    let object = parsed.as_object().unwrap();
    assert_eq!(object.len(), 1);
    assert_eq!(
        object["error"],
        "\"./x\" is not a valid Soroban project. (Missing Cargo.toml with 'soroban-sdk' dependency)"
    );
    let spans = not_a_project_spans("\"./x\"");
    assert_eq!(spans.len(), 3);
    assert_eq!(spans[0].text, "❌");
    assert_eq!(spans[0].style, Style::Red);
    assert_eq!(spans[1].text, " Error: ");
}

#[test]
fn not_a_project_json_escapes() {
    let line = not_a_project_json("\"C:\\\\dir\ttab\"");
    let parsed: serde_json::Value = serde_json::from_str(&line).unwrap();
    assert_eq!(
        parsed["error"],
        "\"C:\\\\dir\ttab\" is not a valid Soroban project. (Missing Cargo.toml with 'soroban-sdk' dependency)"
    );
    assert!(line.contains("\\u0009"));
}

#[test]
fn exit_code_of_rejected_path() {
    assert_eq!(command_exit_code(false, true, 0), ERROR);
    assert_eq!(command_exit_code(false, false, 5), ERROR);
    assert_eq!(command_exit_code(true, true, 5), FINDINGS_FOUND);
    assert_eq!(command_exit_code(true, true, 0), SUCCESS);
    assert_eq!(command_exit_code(true, false, 5), SUCCESS);
}

#[test]
fn single_file_analysis_is_empty() {
    let r = analyze_single_file("fn main() {}", "src/lib.rs");
    assert_eq!(r.file_path, "src/lib.rs");
    assert!(r.panic_issues.is_empty());
    assert!(r.collisions.is_empty());
    assert!(!r.timed_out);
}

#[test]
fn timeout_runner_returns_result() {
    assert_eq!(run_with_timeout(None, || 41 + 1), Some(42));
    assert_eq!(
        run_with_timeout(Some(std::time::Duration::from_secs(1)), || String::from("done")),
        Some(String::from("done"))
    );
}
