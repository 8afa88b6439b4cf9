use mobile_cicd::region::{remove_region, remove_region_lines};

const APPFILE: &str = "app_identifier 'x'\n# region android\njson_key_file 'k.json'\n# endregion android\n# region ios\napple_id 'me'\nteam_id 'T'\n# endregion ios\nend\n";

#[test]
fn removes_single_region_inclusive() {
    let out = remove_region(APPFILE, "ios");
    assert_eq!(
        out,
        "app_identifier 'x'\n# region android\njson_key_file 'k.json'\n# endregion android\nend\n"
    );
}

#[test]
fn removes_each_tag_independently() {
    let once = remove_region(APPFILE, "android");
    assert_eq!(
        once,
        "app_identifier 'x'\n# region ios\napple_id 'me'\nteam_id 'T'\n# endregion ios\nend\n"
    );
    let both = remove_region(&once, "ios");
    assert_eq!(both, "app_identifier 'x'\nend\n");
}

#[test]
fn absent_tag_is_noop() {
    let text = "a\nb\n# region android\nc\n# endregion android\n";
    assert_eq!(remove_region(text, "web"), text);
    assert_eq!(remove_region(text, "ios"), text);
}

#[test]
fn absent_tag_normalizes_line_endings_only() {
    assert_eq!(remove_region("a\r\nb", "ios"), "a\nb\n");
    assert_eq!(remove_region("", "ios"), "");
}

#[test]
fn strip_is_idempotent() {
    let once = remove_region(APPFILE, "ios");
    assert_eq!(remove_region(&once, "ios"), once);
}

#[test]
fn unclosed_region_drops_rest() {
    assert_eq!(remove_region("a\n# region ios\nb\nc\n", "ios"), "a\n");
}

#[test]
fn indented_markers_match() {
    let text = "lane :x do\n  # region ios\n  pods\n  # endregion ios\nend\n";
    assert_eq!(remove_region(text, "ios"), "lane :x do\nend\n");
}

#[test]
fn line_form_keeps_order() {
    let lines: Vec<String> = ["1", "# region ios", "2", "# endregion ios", "3"]
        .iter()
        .map(|s| s.to_string())
        .collect();
    let out = remove_region_lines(&lines, "ios");
    assert_eq!(out, vec!["1".to_string(), "3".to_string()]);
}
