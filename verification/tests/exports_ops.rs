use dybuild::exports::{
    ExportError, decimal_string, extract_exports, mangled_prefix, render_export_lines,
    restrict_to_package,
};

#[test]
fn external_record_emits_its_name() {
    let text = "^1 = gv: (name: \"foo\", flags: (linkage: external))\n";
    let names = extract_exports(text).unwrap();
    assert_eq!(names, vec!["foo".to_string()]);
    assert_eq!(render_export_lines(&names), "/export:foo\r\n");
}

#[test]
fn internal_record_emits_nothing() {
    let text = "^1 = gv: (name: \"foo\", flags: (linkage: internal))\n";
    let names = extract_exports(text).unwrap();
    assert!(names.is_empty());
}

#[test]
fn non_record_lines_are_skipped() {
    let text = "; ModuleID = 'x'\nsome junk\n^1 (name: \"a\", linkage: external)\n";
    let names = extract_exports(text).unwrap();
    assert_eq!(names, vec!["a".to_string()]);
}

#[test]
fn realistic_summary_record() {
    let mut text = String::new();
    text.push_str("^10 = gv: (name: \"_ZN6header3set17h7991ffbe918cc6e2E\", summaries: ");
    text.push_str("(function: (module: ^0, flags: (linkage: external, ");
    text.push_str("notEligibleToImport: 0, live: 0, dsoLocal: 0, canAutoHide: 0), ");
    text.push_str("insts: 4, refs: (writeonly ^7)))) ; guid = 13118310929287874697\n");
    let names = extract_exports(&text).unwrap();
    assert_eq!(names, vec!["_ZN6header3set17h7991ffbe918cc6e2E".to_string()]);
    assert_eq!(
        render_export_lines(&names),
        "/export:_ZN6header3set17h7991ffbe918cc6e2E\r\n"
    );
}

#[test]
fn two_names_in_one_record_are_fatal() {
    let text = "^1 (name: \"a\", name: \"b\", linkage: external)\n";
    assert_eq!(extract_exports(text), Err(ExportError::MultipleNames));
}

#[test]
fn two_names_in_separate_records_are_fine() {
    let text = "^1 (name: \"a\", linkage: external)\n^2 (name: \"b\", linkage: external)\n";
    let names = extract_exports(text).unwrap();
    assert_eq!(names, vec!["a".to_string(), "b".to_string()]);
    assert_eq!(render_export_lines(&names), "/export:a\r\n/export:b\r\n");
}

#[test]
fn name_key_with_no_value_token_is_fatal() {
    // The colon welds "name" to the end of the record, so no value token
    // follows it at all.
    assert_eq!(extract_exports("^x:name"), Err(ExportError::TruncatedRecord));
}

#[test]
fn linkage_key_with_no_value_token_is_fatal() {
    assert_eq!(extract_exports("^x:linkage"), Err(ExportError::TruncatedRecord));
}

#[test]
fn unquoted_name_is_fatal() {
    let text = "^1 (name: foo, linkage: external)\n";
    assert_eq!(extract_exports(text), Err(ExportError::BadName));
}

#[test]
fn escaped_name_is_fatal() {
    let text = "^1 (name: \"a\\b\", linkage: external)\n";
    assert_eq!(extract_exports(text), Err(ExportError::BadName));
}

#[test]
fn latest_linkage_classification_wins() {
    let text = "^1 (name: \"a\", linkage: internal, linkage: external)\n";
    let names = extract_exports(text).unwrap();
    assert_eq!(names, vec!["a".to_string()]);
}

#[test]
fn record_without_linkage_emits_nothing() {
    let text = "^1 (name: \"a\")\n";
    let names = extract_exports(text).unwrap();
    assert!(names.is_empty());
}

#[test]
fn decimal_rendering() {
    assert_eq!(decimal_string(0), "0");
    assert_eq!(decimal_string(7), "7");
    assert_eq!(decimal_string(10), "10");
    assert_eq!(decimal_string(120), "120");
    assert_eq!(decimal_string(98765), "98765");
}

#[test]
fn package_mangled_prefix() {
    assert_eq!(mangled_prefix("header"), "_ZN6header");
    assert_eq!(mangled_prefix("plugin_tools"), "_ZN12plugin_tools");
}

#[test]
fn restriction_keeps_only_the_packages_own_symbols() {
    let names = vec![
        "_ZN6header3set17h7991ffbe918cc6e2E".to_string(),
        "_ZN5other1fE".to_string(),
        "_ZN6header3get17h0000000000000000E".to_string(),
    ];
    let kept = restrict_to_package(&names, "header");
    assert_eq!(
        kept,
        vec![
            "_ZN6header3set17h7991ffbe918cc6e2E".to_string(),
            "_ZN6header3get17h0000000000000000E".to_string(),
        ]
    );
}

#[test]
fn empty_dump_emits_nothing() {
    let names = extract_exports("").unwrap();
    assert!(names.is_empty());
    assert_eq!(render_export_lines(&names), "");
}
