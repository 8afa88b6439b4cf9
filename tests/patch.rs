use mobile_cicd::patch::{add_cocoapods, insert_after_marker};

#[test]
fn adds_cocoapods_after_fastlane() {
    let gemfile = "source \"https://rubygems.org\"\n\ngem 'fastlane'\ngem 'rake'\n";
    let out = add_cocoapods(gemfile);
    assert_eq!(
        out,
        "source \"https://rubygems.org\"\n\ngem 'fastlane'\ngem 'cocoapods'\ngem 'rake'\n"
    );
    assert_eq!(out.lines().count(), gemfile.lines().count() + 1);
}

#[test]
fn marker_on_last_line_without_newline() {
    assert_eq!(add_cocoapods("gem 'fastlane'"), "gem 'fastlane'\ngem 'cocoapods'\n");
}

#[test]
fn no_marker_no_insert() {
    assert_eq!(add_cocoapods("gem 'rake'\n"), "gem 'rake'\n");
}

#[test]
fn every_marker_gets_an_insert() {
    let lines: Vec<String> = ["m1", "x", "m2"].iter().map(|s| s.to_string()).collect();
    let out = insert_after_marker(&lines, "m", "+");
    let want: Vec<String> = ["m1", "+", "x", "m2", "+"].iter().map(|s| s.to_string()).collect();
    assert_eq!(out, want);
}
