use sanctifier_cli::codes::FindingCode;
use sanctifier_cli::findings::{AnalysisBuckets, PanicIssue, StorageCollisionIssue};
use sanctifier_cli::project::{
    analysis_scope, classify_entry, AnalysisScope, is_soroban_project, manifest_source, EntryAction, ManifestSource, PathKind,
};
use sanctifier_cli::text_report::render_text_report;

fn collision(k: &str) -> StorageCollisionIssue {
    StorageCollisionIssue {
        key_value: k.to_string(),
        key_type: "Symbol".to_string(),
        location: "lib.rs:1".to_string(),
        message: "duplicate".to_string(),
    }
}

#[test]
fn flags_raised_exactly_with_findings() {
    let empty = AnalysisBuckets::new();
    assert_eq!(empty.has_critical() || empty.has_high(), empty.total_findings() != Some(0));
    let mut one = AnalysisBuckets::new();
    one.size_warnings.push(sanctifier_cli::findings::SizeWarning {
        struct_name: "S".to_string(),
        estimated_size: 1,
        limit: 2,
        level: "Warning".to_string(),
    });
    assert!(one.has_critical() || one.has_high());
    assert_eq!(one.total_findings(), Some(1));
}

#[test]
fn absorbing_adds_counts_and_keeps_flags() {
    let mut before = AnalysisBuckets::new();
    before.panics.push(PanicIssue {
        function_name: "f".to_string(),
        issue_type: "panic!".to_string(),
        location: "a.rs:1".to_string(),
    });
    let mut file = AnalysisBuckets::new();
    file.collisions.push(collision("A"));
    file.collisions.push(collision("B"));
    let file_total = file.total_findings().unwrap();
    let before_total = before.total_findings().unwrap();
    before.absorb(file);
    assert_eq!(before.total_findings(), Some(before_total + file_total));
    assert!(before.has_critical());
    assert!(before.has_high());
}

#[test]
fn text_report_length_follows_findings() {
    let mut b = AnalysisBuckets::new();
    b.collisions.push(collision("A"));
    b.collisions.push(collision("B"));
    b.auth_gaps.push("g".to_string());
    let lines = render_text_report(&b);
    // auth: 1 + 1, size all-clear: 1, collisions: 1 + 4 * 2, closing: 1
    assert_eq!(lines.len(), 2 + 1 + 9 + 1);
    let last: String = lines[lines.len() - 1].iter().map(|s| s.text.clone()).collect();
    assert_eq!(last, "\n✅ Static analysis complete.");
}

#[test]
fn unneeded_manifest_changes_nothing() {
    for (kind, name) in [
        (PathKind::File, Some("lib.rs")),
        (PathKind::File, Some("README.md")),
        (PathKind::File, None),
        (PathKind::Missing, Some("x.rs")),
    ] {
        assert_eq!(manifest_source(kind, name), ManifestSource::NotNeeded);
        assert_eq!(
            is_soroban_project(kind, name, None),
            is_soroban_project(kind, name, Some("soroban-sdk"))
        );
    }
}

#[test]
fn analyzed_files_are_projects() {
    for name in ["lib.rs", "contract.rs", "x.y.rs"] {
        assert_eq!(classify_entry(false, Some(name)), EntryAction::Analyze);
        assert!(is_soroban_project(PathKind::File, Some(name), None));
    }
}

#[test]
fn catalogue_holds_each_code_once() {
    let all = FindingCode::catalogue();
    for (i, c) in all.iter().enumerate() {
        assert_eq!(c.name(), format!("S{:03}", i));
        assert_eq!(all.iter().filter(|d| *d == c).count(), 1);
    }
    assert_eq!(FindingCode::S001.category(), "authentication");
    assert_eq!(FindingCode::S004.category(), "ledger_size");
}

#[test]
fn accepted_paths_are_analysed() {
    let manifest = Some("[dependencies]\nsoroban-sdk = \"21\"\n");
    for (kind, name) in [
        (PathKind::File, Some("Cargo.toml")),
        (PathKind::File, Some("lib.rs")),
        (PathKind::Directory, Some("vesting")),
    ] {
        assert!(is_soroban_project(kind, name, manifest));
        assert_ne!(analysis_scope(kind, name), AnalysisScope::Nothing);
    }
}
