use fs_desktop::theme_loader::{prefix_theme_css, required_vars, validate_theme_vars};

#[test]
fn prefix_injection() {
    let css = ":root { --bg-base: #000; --text-primary: #fff; }";
    let out = prefix_theme_css(css, "fsn");
    assert!(out.contains("--fsn-bg-base: #000"), "got: {out}");
    assert!(out.contains("--fsn-text-primary: #fff"), "got: {out}");
}

#[test]
fn no_double_prefix() {
    let css = ":root { --fsn-bg-base: #000; }";
    let out = prefix_theme_css(css, "fsn");
    assert!(!out.contains("--fsn-fsn-"), "got: {out}");
    assert!(out.contains("--fsn-bg-base: #000"), "got: {out}");
}

#[test]
fn validate_missing_vars() {
    let css = "--bg-base: #0c1222; --text-primary: #e8edf5;";
    let missing = validate_theme_vars(css);
    assert!(missing.contains(&"bg-surface"), "expected bg-surface missing");
    assert!(!missing.contains(&"bg-base"), "bg-base should be present");
}

#[test]
fn prefix_exact_output() {
    assert_eq!(
        prefix_theme_css(":root { --bg-base: #000; }", "fsn"),
        ":root { --fsn-bg-base: #000; }"
    );
    // A short tail after `--` still receives the prefix.
    assert_eq!(prefix_theme_css("a--b", "fsn"), "a--fsn-b");
    // A single dash is copied unchanged.
    assert_eq!(prefix_theme_css("-x-y", "p"), "-x-y");
    assert_eq!(prefix_theme_css("", "fsn"), "");
}

#[test]
fn validate_all_present_and_all_missing() {
    let mut full = String::new();
    for v in required_vars() {
        full.push_str(&format!("--{v}: #000; "));
    }
    assert!(validate_theme_vars(&full).is_empty());
    assert_eq!(validate_theme_vars(""), required_vars());
}

#[test]
fn every_declaration_gets_the_prefix() {
    assert_eq!(prefix_theme_css("--a;--b", "fsn"), "--fsn-a;--fsn-b");
    assert_eq!(prefix_theme_css("--a:1;--fsn-b:2", "fsn"), "--fsn-a:1;--fsn-b:2");
}

#[test]
fn non_ascii_prefix_is_not_doubled() {
    assert_eq!(prefix_theme_css("--é-x", "é"), "--é-x");
    assert_eq!(prefix_theme_css("--x", "é"), "--é-x");
}

#[test]
fn validation_matches_whole_names() {
    let missing = validate_theme_vars("--border-focus: #fff;");
    assert!(missing.contains(&"border"));
    assert!(!missing.contains(&"border-focus"));
    let missing = validate_theme_vars("--border:#000");
    assert!(!missing.contains(&"border"));
    assert!(missing.contains(&"border-focus"));
}
