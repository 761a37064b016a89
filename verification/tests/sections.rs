use mosaico_core::config::loading::load_or_default;
use mosaico_core::config::sections::{missing_workspaces_section, workspaces_addition, WORKSPACES_SECTION_SNIPPET};

/// The file as it reads after the library's addition, if any, is appended.
fn after_append(before: &str) -> (bool, String) {
    match missing_workspaces_section(before).unwrap() {
        Some(addition) => (true, format!("{before}{addition}")),
        None => (false, before.to_string()),
    }
}

#[test]
fn appends_workspaces_section_when_missing() {
    let before = "\
[layout]
gap = 8

[borders]
width = 4
";
    let (appended, on_disk) = after_append(before);
    assert!(appended, "should append when [workspaces] is missing");
    assert!(on_disk.starts_with(before), "existing content must be preserved verbatim");
    assert!(on_disk.contains("[workspaces]"));
    assert!(on_disk.contains("mode = \"per-monitor\""));
    assert!(on_disk.contains("# [workspaces.layouts]"));
}

#[test]
fn does_not_append_when_section_present() {
    let before = "\
[layout]
gap = 8

[workspaces]
mode = \"global\"
";
    let (appended, on_disk) = after_append(before);
    assert!(!appended, "should not append when section already present");
    assert_eq!(on_disk, before, "file must be untouched");
}

#[test]
fn append_handles_file_without_trailing_newline() {
    let before = "[layout]\ngap = 8";
    let (_, on_disk) = after_append(before);
    assert!(on_disk.contains("gap = 8\n"));
    assert!(on_disk.contains("[workspaces]"));
}

#[test]
fn nested_workspaces_table_counts_as_present() {
    let before = "[workspaces.layouts]\n1 = \"bsp\"\n";
    assert_eq!(missing_workspaces_section(before), Ok(None));
}

#[test]
fn invalid_toml_is_an_error() {
    assert!(missing_workspaces_section("[layout\ngap = ").is_err());
    assert!(missing_workspaces_section("a = 1\na = 2\n").is_err());
}

#[test]
fn addition_is_the_snippet_on_a_fresh_line() {
    assert_eq!(workspaces_addition("x = 1\n", true), None);
    assert_eq!(workspaces_addition("x = 1\n", false), Some(WORKSPACES_SECTION_SNIPPET.to_string()));
    assert_eq!(workspaces_addition("x = 1", false), Some(format!("\n{WORKSPACES_SECTION_SNIPPET}")));
    assert_eq!(workspaces_addition("", false), Some(format!("\n{WORKSPACES_SECTION_SNIPPET}")));
    assert_eq!(missing_workspaces_section(""), Ok(Some(format!("\n{WORKSPACES_SECTION_SNIPPET}"))));
}

#[test]
fn missing_file_gives_default_silently() {
    let (value, warning) = load_or_default(false, || -> Result<i32, String> { panic!("must not load") }, || 7);
    assert_eq!(value, 7);
    assert_eq!(warning, None);
}

#[test]
fn loaded_value_wins_over_default() {
    let (value, warning) = load_or_default(true, || Ok(3), || 7);
    assert_eq!(value, 3);
    assert_eq!(warning, None);
}

#[test]
fn load_error_gives_default_and_is_reported() {
    let (value, warning) = load_or_default(true, || Err("bad file".to_string()), || 7);
    assert_eq!(value, 7);
    assert_eq!(warning, Some("bad file".to_string()));
}

use mosaico_core::config::sections::{has_legacy_layouts, migrated_config};

#[test]
fn migrates_legacy_section_and_writes_backup() {
    let before = "\
[layout]
gap = 8

[layout.workspaces]
1 = \"vertical-stack\"
3 = \"three-column\"
";
    assert_eq!(has_legacy_layouts(before), Ok(true));
    let migrated = migrated_config(before).unwrap();
    assert!(migrated.is_some(), "expected migration to run");
    let new_content = migrated.unwrap();
    assert!(new_content.contains("[workspaces.layouts]"));
    assert!(!new_content.contains("[layout.workspaces]"));
    assert!(new_content.contains("1 = \"vertical-stack\""));
    assert!(new_content.contains("gap = 8"));
}

#[test]
fn no_legacy_section_is_a_noop() {
    let before = "\
[layout]
gap = 8

[workspaces]
mode = \"global\"

[workspaces.layouts]
2 = \"bsp\"
";
    assert_eq!(has_legacy_layouts(before), Ok(false));
    assert_eq!(migrated_config(before), Ok(None));
}

#[test]
fn second_run_is_idempotent() {
    let before = "\
[layout]
gap = 8

[layout.workspaces]
1 = \"bsp\"
";
    let first = migrated_config(before).unwrap();
    assert!(first.is_some());
    let after_first = first.unwrap();
    assert_eq!(migrated_config(&after_first), Ok(None), "second migration must be a no-op");
}

#[test]
fn existing_workspaces_layouts_wins_over_legacy() {
    let before = "\
[layout]
gap = 8

[layout.workspaces]
1 = \"bsp\"

[workspaces]
mode = \"global\"

[workspaces.layouts]
2 = \"three-column\"
";
    let migrated = migrated_config(before).unwrap().unwrap();
    assert!(!migrated.contains("[layout.workspaces]"));
    assert!(migrated.contains("2 = \"three-column\""));
    assert!(!migrated.contains("1 = \"bsp\""));
}

#[test]
fn migration_into_existing_workspaces_table() {
    let before = "\
[layout.workspaces]
4 = \"bsp\"

[workspaces]
mode = \"global\"
";
    let migrated = migrated_config(before).unwrap().unwrap();
    assert!(migrated.contains("mode = \"global\""));
    assert!(migrated.contains("4 = \"bsp\""));
    assert!(!migrated.contains("[layout.workspaces]"));
}

#[test]
fn migration_errors() {
    assert!(has_legacy_layouts("[layout").is_err());
    assert!(migrated_config("[layout").is_err());
    let not_table = "workspaces = 5\n\n[layout.workspaces]\n1 = \"bsp\"\n";
    assert_eq!(
        migrated_config(not_table),
        Err("[workspaces] is not a table -- cannot migrate".to_string())
    );
}

#[test]
fn layout_that_is_not_a_table_has_no_legacy_section() {
    let content = "layout = 3\n";
    assert_eq!(has_legacy_layouts(content), Ok(false));
    assert_eq!(migrated_config(content), Ok(None));
    let content = "[layout]\ngap = 8\n";
    assert_eq!(has_legacy_layouts(content), Ok(false));
    assert_eq!(migrated_config(content), Ok(None));
}
