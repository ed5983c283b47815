use sanctifier_cli::findings::{AnalysisBuckets, PanicIssue, SizeWarning, StorageCollisionIssue};
use sanctifier_cli::json_report::build_json_report;
use sanctifier_cli::json_tree::{JsonValue, ToJson};
use serde_json::Value;

fn to_serde(value: &JsonValue) -> Value {
    match value {
        JsonValue::Bool(b) => Value::Bool(*b),
        JsonValue::Number(n) => Value::from(*n),
        JsonValue::Text(s) => Value::String(s.clone()),
        JsonValue::Array(items) => Value::Array(items.iter().map(to_serde).collect()),
        JsonValue::Object(members) => Value::Object(
            members.iter().map(|m| (m.key.clone(), to_serde(&m.value))).collect(),
        ),
    }
}

fn report() -> Value {
    let mut b = AnalysisBuckets::new();
    b.auth_gaps.push("set_admin".to_string());
    b.panics.push(PanicIssue {
        function_name: "withdraw".to_string(),
        issue_type: "unwrap".to_string(),
        location: "lib.rs:10".to_string(),
    });
    b.size_warnings.push(SizeWarning {
        struct_name: "Config".to_string(),
        estimated_size: 70000,
        limit: 65536,
        level: "ExceedsLimit".to_string(),
    });
    b.collisions.push(StorageCollisionIssue {
        key_value: "ADMIN".to_string(),
        key_type: "Symbol".to_string(),
        location: "lib.rs:5".to_string(),
        message: "key used twice".to_string(),
    });
    to_serde(&build_json_report(b, "0.1.0", "now", Some("/work")).to_json())
}

fn j(text: &str) -> Value {
    serde_json::from_str(text).unwrap()
}

fn keys(v: &Value) -> Vec<String> {
    let mut k: Vec<String> = v.as_object().unwrap().keys().cloned().collect();
    k.sort();
    k
}

#[test]
fn report_top_level_members() {
    let r = report();
    let mut expected = vec![
        "schema_version", "metadata", "summary", "findings", "error_codes",
        "vulnerability_db_version", "timed_out_files", "sep41_checked_contracts",
        "storage_collisions", "ledger_size_warnings", "unsafe_patterns", "auth_gaps",
        "panic_issues", "arithmetic_issues", "custom_rules", "event_issues",
        "unhandled_results", "upgrade_reports", "smt_issues", "sep41_issues", "call_graph",
        "vulnerability_db_matches",
    ];
    expected.sort();
    assert_eq!(keys(&r), expected);
    assert_eq!(r["schema_version"], "1.0.0");
    assert_eq!(r["vulnerability_db_version"], "unknown");
    assert_eq!(r["metadata"]["format"], "sanctifier-ci-v1");
    assert_eq!(r["metadata"]["project_path"], "/work");
    assert_eq!(r["metadata"]["timeout_secs"], 0);
}

#[test]
fn report_summary_members() {
    let s = &report()["summary"];
    assert_eq!(s["total_findings"], 4);
    assert_eq!(s["storage_collisions"], 1);
    assert_eq!(s["auth_gaps"], 1);
    assert_eq!(s["panic_issues"], 1);
    assert_eq!(s["arithmetic_issues"], 0);
    assert_eq!(s["size_warnings"], 1);
    assert_eq!(s["timed_out_files"], 0);
    assert_eq!(s["has_critical"], true);
    assert_eq!(s["has_high"], true);
    assert_eq!(keys(s).len(), 15);
}

#[test]
fn report_findings_members() {
    let r = report();
    let f = &r["findings"];
    assert_eq!(f["auth_gaps"][0], j(r#"{"code": "S001", "function": "set_admin"}"#));
    assert_eq!(
        f["storage_collisions"][0],
        j(r#"{"code": "S005", "key_value": "ADMIN", "key_type": "Symbol",
            "location": "lib.rs:5", "message": "key used twice"}"#)
    );
    assert_eq!(
        f["ledger_size_warnings"][0],
        j(r#"{"code": "S004", "struct_name": "Config", "estimated_size": 70000,
            "limit": 65536, "level": "ExceedsLimit"}"#)
    );
    assert_eq!(f["panic_issues"][0]["code"], "S002");
    assert_eq!(f["timeouts"], j("[]"));
    assert_eq!(r["auth_gaps"], j(r#"["set_admin"]"#));
    assert_eq!(
        r["panic_issues"][0],
        j(r#"{"function_name": "withdraw", "issue_type": "unwrap", "location": "lib.rs:10"}"#)
    );
    assert_eq!(r["error_codes"].as_array().unwrap().len(), 13);
    assert_eq!(
        r["error_codes"][5],
        j(r#"{"code": "S005", "category": "storage", "description": "Potential storage key collision detected."}"#)
    );
}
