use sanctifier_cli::codes::FindingCode;
use sanctifier_cli::exit_codes::{analysis_exit_code, ERROR, FINDINGS_FOUND, SUCCESS};
use sanctifier_cli::findings::{
    AnalysisBuckets, ArithmeticIssue, PanicIssue, SizeWarning, StorageCollisionIssue,
    UnsafePattern,
};
use sanctifier_cli::json_report::{build_json_report, summarize};
use sanctifier_cli::text_report::{render_text_report, Span, Style};

fn s(x: &str) -> String {
    x.to_string()
}

fn panic_issue() -> PanicIssue {
    PanicIssue { function_name: s("withdraw"), issue_type: s("unwrap"), location: s("lib.rs:10") }
}

fn arithmetic_issue() -> ArithmeticIssue {
    ArithmeticIssue {
        function_name: s("deposit"),
        operation: s("+"),
        suggestion: s("use checked_add"),
        location: s("lib.rs:20"),
    }
}

fn unsafe_pattern() -> UnsafePattern {
    UnsafePattern { pattern_type: s("UnsafeBlock"), line: 42, snippet: s("unsafe { x }") }
}

fn size_warning() -> SizeWarning {
    SizeWarning { struct_name: s("Config"), estimated_size: 70000, limit: 65536, level: s("ExceedsLimit") }
}

fn collision() -> StorageCollisionIssue {
    StorageCollisionIssue {
        key_value: s("ADMIN"),
        key_type: s("Symbol"),
        location: s("lib.rs:5"),
        message: s("key used twice"),
    }
}

fn full_buckets() -> AnalysisBuckets {
    let mut b = AnalysisBuckets::new();
    b.auth_gaps.push(s("set_admin"));
    b.panics.push(panic_issue());
    b.arithmetic_issues.push(arithmetic_issue());
    b.unsafe_patterns.push(unsafe_pattern());
    b.size_warnings.push(size_warning());
    b.collisions.push(collision());
    b
}

fn printed(lines: &[Vec<Span>]) -> Vec<String> {
    lines.iter().map(|l| l.iter().map(|sp| sp.text.clone()).collect::<String>()).collect()
}

#[test]
fn exit_code_values() {
    assert_eq!(SUCCESS, 0);
    assert_eq!(FINDINGS_FOUND, 1);
    assert_eq!(ERROR, 2);
    assert_eq!(analysis_exit_code(true, 3), FINDINGS_FOUND);
    assert_eq!(analysis_exit_code(true, 0), SUCCESS);
    assert_eq!(analysis_exit_code(false, 3), SUCCESS);
    assert_eq!(analysis_exit_code(false, 0), SUCCESS);
}

#[test]
fn buckets_count_and_flag() {
    let b = AnalysisBuckets::new();
    assert_eq!(b.total_findings(), Some(0));
    assert!(!b.has_critical());
    assert!(!b.has_high());
    let b = full_buckets();
    assert_eq!(b.total_findings(), Some(6));
    assert!(b.has_critical());
    assert!(b.has_high());
    let mut only_high = AnalysisBuckets::new();
    only_high.collisions.push(collision());
    assert!(!only_high.has_critical());
    assert!(only_high.has_high());
    let mut only_critical = AnalysisBuckets::new();
    only_critical.auth_gaps.push(s("f"));
    assert!(only_critical.has_critical());
    assert!(!only_critical.has_high());
}

#[test]
fn absorbing_appends_in_order() {
    let mut total = AnalysisBuckets::new();
    let mut first = AnalysisBuckets::new();
    first.auth_gaps.push(s("a"));
    let mut second = AnalysisBuckets::new();
    second.auth_gaps.push(s("b"));
    second.panics.push(panic_issue());
    total.absorb(first);
    total.absorb(second);
    assert_eq!(total.auth_gaps, vec![s("a"), s("b")]);
    assert_eq!(total.panics.len(), 1);
    assert_eq!(total.total_findings(), Some(3));
}

#[test]
fn clean_report_text() {
    let lines = render_text_report(&AnalysisBuckets::new());
    assert_eq!(
        printed(&lines),
        vec![
            s("\n✅ No ledger size issues found."),
            s("\n✅ No storage key collisions found."),
            s("\n✅ Static analysis complete."),
        ]
    );
    assert_eq!(lines[0][1].style, Style::Green);
}

#[test]
fn full_report_text() {
    let lines = render_text_report(&full_buckets());
    assert_eq!(
        printed(&lines),
        vec![
            s("\n🛑 Found potential Authentication Gaps!"),
            s("   -> Function: set_admin"),
            s("\n🛑 Found explicit Panics/Unwraps!"),
            s("   -> Function: withdraw (unwrap)"),
            s("\n🛑 Found unchecked Arithmetic Operations!"),
            s("   -> Function: deposit (operation: +)"),
            s("\n⚠️ Found unsafe patterns!"),
            s("   -> Line 42: unsafe { x } (unsafeblock)"),
            s("\n⚠️ Found ledger size issues!"),
            s("   -> Struct: Config (70000 / 65536 bytes)"),
            s("\n⚠️ Found potential Storage Key Collisions!"),
            s("   -> Value: ADMIN"),
            s("      Type: Symbol"),
            s("      Location: lib.rs:5"),
            s("      Message: key used twice"),
            s("\n✅ Static analysis complete."),
        ]
    );
    // The function name of an authentication gap is bold, its arrow red.
    assert_eq!(lines[1][1].style, Style::Red);
    assert_eq!(lines[1][3].style, Style::Bold);
    // The arrow of an unsafe pattern is yellow.
    assert_eq!(lines[7][1].style, Style::Yellow);
}

#[test]
fn summary_counts() {
    let sum = summarize(&full_buckets());
    assert_eq!(sum.total_findings, 6);
    assert_eq!(sum.storage_collisions, 1);
    assert_eq!(sum.auth_gaps, 1);
    assert_eq!(sum.custom_rule_matches, 0);
    assert!(sum.has_critical);
    assert!(sum.has_high);
}

#[test]
fn json_report_contents() {
    let r = build_json_report(full_buckets(), "0.1.0", "now", Some("/work"));
    assert_eq!(r.schema_version, "1.0.0");
    assert_eq!(r.metadata.version, "0.1.0");
    assert_eq!(r.metadata.timestamp, "now");
    assert_eq!(r.metadata.project_path, "/work");
    assert_eq!(r.metadata.format, "sanctifier-ci-v1");
    assert_eq!(r.metadata.timeout_secs, 0);
    assert_eq!(r.summary.total_findings, 6);
    assert_eq!(r.findings.auth_gaps.len(), 1);
    assert_eq!(r.findings.auth_gaps[0].code, FindingCode::S001);
    assert_eq!(r.findings.auth_gaps[0].finding, "set_admin");
    assert_eq!(r.findings.panic_issues[0].code, FindingCode::S002);
    assert_eq!(r.findings.arithmetic_issues[0].code, FindingCode::S003);
    assert_eq!(r.findings.ledger_size_warnings[0].code, FindingCode::S004);
    assert_eq!(r.findings.storage_collisions[0].code, FindingCode::S005);
    assert_eq!(r.findings.unsafe_patterns[0].code, FindingCode::S006);
    assert_eq!(r.findings.unsafe_patterns[0].finding.line, 42);
    assert_eq!(r.auth_gaps, vec![s("set_admin")]);
    assert_eq!(r.storage_collisions[0].key_value, "ADMIN");
    assert_eq!(r.error_codes.len(), 13);
    assert_eq!(r.vulnerability_db_version, "unknown");
    assert!(r.custom_rules.is_empty());
    assert!(r.findings.timeouts.is_empty());
}

#[test]
fn json_report_unknown_working_dir() {
    let r = build_json_report(AnalysisBuckets::new(), "0.1.0", "now", None);
    assert_eq!(r.metadata.project_path, "unknown");
    assert_eq!(r.summary.total_findings, 0);
    assert!(!r.summary.has_critical);
}

#[test]
fn code_catalogue() {
    let all = FindingCode::catalogue();
    assert_eq!(all.len(), 13);
    assert_eq!(all[0].name(), "S000");
    assert_eq!(all[12].name(), "S012");
    assert_eq!(FindingCode::S005.category(), "storage");
    assert_eq!(FindingCode::S001.description(), "Missing authentication guard in public function.");
    assert_eq!(FindingCode::S012.description(), "SEP-41 compliance issue detected.");
    assert_eq!(FindingCode::S009.category(), "result_handling");
}

#[test]
fn numbers_and_pattern_names_in_text_report() {
    let mut b = AnalysisBuckets::new();
    b.unsafe_patterns.push(UnsafePattern { pattern_type: s("Transmute"), line: 0, snippet: s("t") });
    b.size_warnings.push(SizeWarning {
        struct_name: s("Big"),
        estimated_size: 1024,
        limit: 905,
        level: s("Warning"),
    });
    let lines = printed(&render_text_report(&b));
    assert_eq!(lines[1], "   -> Line 0: t (transmute)");
    assert_eq!(lines[3], "   -> Struct: Big (1024 / 905 bytes)");
}
