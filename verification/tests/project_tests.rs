use sanctifier_cli::project::{
    analysis_scope, classify_entry, AnalysisScope, is_rust_source, is_soroban_project, manifest_source, EntryAction,
    ManifestSource, PathKind,
};

#[test]
fn rust_source_names() {
    assert!(is_rust_source(Some("lib.rs")));
    assert!(is_rust_source(Some("a.rs")));
    assert!(is_rust_source(Some("a.b.rs")));
    assert!(is_rust_source(Some(".x.rs")));
    assert!(!is_rust_source(Some(".rs")));
    assert!(!is_rust_source(Some("rs")));
    assert!(!is_rust_source(Some("lib.rsx")));
    assert!(!is_rust_source(Some("lib.RS")));
    assert!(!is_rust_source(Some("Cargo.toml")));
    assert!(!is_rust_source(None));
}

#[test]
fn manifest_needed_for_cargo_toml_and_directories() {
    assert_eq!(manifest_source(PathKind::File, Some("lib.rs")), ManifestSource::NotNeeded);
    assert_eq!(manifest_source(PathKind::File, Some("Cargo.toml")), ManifestSource::ThisFile);
    assert_eq!(manifest_source(PathKind::File, Some("cargo.toml")), ManifestSource::NotNeeded);
    assert_eq!(manifest_source(PathKind::File, None), ManifestSource::NotNeeded);
    assert_eq!(manifest_source(PathKind::Directory, Some("contract")), ManifestSource::CargoTomlInside);
    assert_eq!(manifest_source(PathKind::Directory, None), ManifestSource::CargoTomlInside);
    assert_eq!(manifest_source(PathKind::Missing, Some("lib.rs")), ManifestSource::NotNeeded);
}

#[test]
fn soroban_project_verdicts() {
    let with_sdk = "[dependencies]\nsoroban-sdk = { workspace = true }\n";
    let without_sdk = "[dependencies]\nserde = \"1\"\n";
    // A single Rust file is always accepted.
    assert!(is_soroban_project(PathKind::File, Some("contract.rs"), None));
    // A Cargo.toml file is accepted when it names soroban-sdk.
    assert!(is_soroban_project(PathKind::File, Some("Cargo.toml"), Some(with_sdk)));
    assert!(!is_soroban_project(PathKind::File, Some("Cargo.toml"), Some(without_sdk)));
    assert!(!is_soroban_project(PathKind::File, Some("Cargo.toml"), None));
    // Other files are not.
    assert!(!is_soroban_project(PathKind::File, Some("README.md"), Some(with_sdk)));
    // A directory is accepted when its Cargo.toml names soroban-sdk.
    assert!(is_soroban_project(PathKind::Directory, Some("vesting"), Some(with_sdk)));
    assert!(!is_soroban_project(PathKind::Directory, Some("vesting"), Some(without_sdk)));
    assert!(!is_soroban_project(PathKind::Directory, Some("vesting"), None));
    // Nothing at the path.
    assert!(!is_soroban_project(PathKind::Missing, Some("lib.rs"), Some(with_sdk)));
}

#[test]
fn walk_classification() {
    assert_eq!(classify_entry(true, Some("src")), EntryAction::Descend);
    assert_eq!(classify_entry(true, Some("weird.rs")), EntryAction::Descend);
    assert_eq!(classify_entry(false, Some("lib.rs")), EntryAction::Analyze);
    assert_eq!(classify_entry(false, Some("Cargo.toml")), EntryAction::Skip);
    assert_eq!(classify_entry(false, None), EntryAction::Skip);
}

#[test]
fn analysis_scope_of_paths() {
    assert_eq!(analysis_scope(PathKind::Directory, Some("contracts")), AnalysisScope::WalkDirectory);
    assert_eq!(analysis_scope(PathKind::File, Some("lib.rs")), AnalysisScope::SingleFile);
    assert_eq!(analysis_scope(PathKind::File, Some("Cargo.toml")), AnalysisScope::WalkManifestDirectory);
    assert_eq!(analysis_scope(PathKind::Directory, Some("Cargo.toml")), AnalysisScope::WalkDirectory);
    assert_eq!(analysis_scope(PathKind::File, Some("README.md")), AnalysisScope::Nothing);
    assert_eq!(analysis_scope(PathKind::Missing, None), AnalysisScope::Nothing);
}
