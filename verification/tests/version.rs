use mosaico_core::version::{check_for_update, extract_tag_name, is_newer};

#[test]
fn newer_major() {
    assert!(is_newer("1.0.0", "0.9.9"));
}

#[test]
fn newer_minor() {
    assert!(is_newer("0.2.0", "0.1.9"));
}

#[test]
fn newer_patch() {
    assert!(is_newer("0.1.1", "0.1.0"));
}

#[test]
fn same_version() {
    assert!(!is_newer("0.1.0", "0.1.0"));
}

#[test]
fn older_version() {
    assert!(!is_newer("0.1.0", "0.2.0"));
}

#[test]
fn malformed_returns_false() {
    assert!(!is_newer("abc", "0.1.0"));
    assert!(!is_newer("0.1", "0.1.0"));
}

#[test]
fn extract_tag_from_json() {
    let json = r#"{"tag_name":"v0.2.0","name":"Release 0.2.0"}"#;
    assert_eq!(extract_tag_name(json), Some("v0.2.0".to_string()));
}

#[test]
fn extract_tag_with_spaces() {
    let json = r#"{ "tag_name" : "v1.0.0" }"#;
    assert_eq!(extract_tag_name(json), Some("v1.0.0".to_string()));
}

#[test]
fn extract_tag_missing() {
    assert_eq!(extract_tag_name(r#"{"name":"foo"}"#), None);
}

#[test]
fn check_finds_update() {
    let json = r#"{"tag_name":"v0.2.0"}"#;
    assert_eq!(check_for_update(json, "0.1.0"), Some("v0.2.0".into()));
}

#[test]
fn check_no_update_when_same() {
    let json = r#"{"tag_name":"v0.1.0"}"#;
    assert_eq!(check_for_update(json, "0.1.0"), None);
}

#[test]
fn check_no_update_when_local_is_newer() {
    let json = r#"{"tag_name":"v0.1.0"}"#;
    assert_eq!(check_for_update(json, "0.2.0"), None);
}


#[test]
fn malformed_part_is_never_newer() {
    assert!(!is_newer("1.x.0.0", "0.9.9"));
    assert!(!is_newer("1.0.0", "0.x.9"));
    assert!(!is_newer("1.0.0.0", "0.9.9"));
    assert!(!is_newer("v1.0.0", "0.9.9"));
    assert!(!is_newer("1..0", "0.9.9"));
    assert!(is_newer("+1.0.0", "0.9.9"));
}

#[test]
fn tag_that_is_not_a_string_is_missing() {
    assert_eq!(extract_tag_name(r#"{"tag_name":null,"name":"x"}"#), None);
    assert_eq!(extract_tag_name(r#"{"tag_name":5}"#), None);
    assert_eq!(extract_tag_name(r#"{"tag_name" "v1.0.0"}"#), None);
    assert_eq!(extract_tag_name("{\"tag_name\"\n:\t\"v2.0.0\"}"), Some("v2.0.0".to_string()));
    assert_eq!(extract_tag_name(r#"{"tag_name":"v1.0"#), None);
    assert_eq!(check_for_update(r#"{"tag_name":null,"name":"v9.9.9"}"#, "0.1.0"), None);
}
