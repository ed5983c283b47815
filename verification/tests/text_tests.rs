use sanctifier_cli::text::{chars_of, decimal_string, text_contains, text_equals};

#[test]
fn contains_finds_marker_in_manifest() {
    let manifest = "[dependencies]\nsoroban-sdk = \"21.7.6\"\n";
    assert!(text_contains(manifest, "soroban-sdk"));
    assert!(!text_contains("[dependencies]\nserde = \"1\"\n", "soroban-sdk"));
}

#[test]
fn contains_edge_cases() {
    assert!(text_contains("", ""));
    assert!(text_contains("abc", ""));
    assert!(!text_contains("", "a"));
    assert!(!text_contains("soroban-sd", "soroban-sdk"));
    assert!(text_contains("soroban-sdk", "soroban-sdk"));
    assert!(text_contains("xxsoroban-sdk", "soroban-sdk"));
    assert!(!text_contains("soroban_sdk", "soroban-sdk"));
    assert!(text_contains("ééx", "éx"));
}

#[test]
fn equality_of_texts() {
    assert!(text_equals("json", "json"));
    assert!(!text_equals("json", "JSON"));
    assert!(!text_equals("json", "json "));
    assert!(text_equals("", ""));
}

#[test]
fn chars_in_order() {
    assert_eq!(chars_of("a→b"), vec!['a', '→', 'b']);
    assert_eq!(chars_of(""), Vec::<char>::new());
}

#[test]
fn decimal_rendering() {
    assert_eq!(decimal_string(0), "0");
    assert_eq!(decimal_string(7), "7");
    assert_eq!(decimal_string(10), "10");
    assert_eq!(decimal_string(305), "305");
    assert_eq!(decimal_string(usize::MAX), usize::MAX.to_string());
}
