use prek::pattern::FilePattern;
use prek::text::{first_ascii_field, from_utf8_lossy, join, same_text, trim};

#[test]
fn trim_removes_unicode_white_space() {
    assert_eq!(trim("  a b \t\n"), "a b");
    assert_eq!(trim("\u{3000}x\u{a0}"), "x");
    assert_eq!(trim(""), "");
    assert_eq!(trim(" \n "), "");
}

#[test]
fn first_field_splits_at_ascii_white_space() {
    assert_eq!(first_ascii_field("  abc def"), Some("abc".to_string()));
    assert_eq!(first_ascii_field("abc"), Some("abc".to_string()));
    assert_eq!(first_ascii_field("\u{a0}x y"), Some("\u{a0}x".to_string()));
    assert_eq!(first_ascii_field(" \t\r\n"), None);
}

#[test]
fn lossy_conversion_and_joining() {
    assert_eq!(from_utf8_lossy(b"plain"), "plain");
    assert_eq!(from_utf8_lossy(&[0x66, 0xff, 0x6f]), "f\u{fffd}o");
    assert_eq!(join(&["a".to_string(), "b".to_string(), "c".to_string()], ", "), "a, b, c");
    assert_eq!(join(&[], ", "), "");
    assert!(same_text("x", "x"));
    assert!(!same_text("x", "y"));
}

#[test]
fn file_patterns() {
    assert!(FilePattern::new_regex("(").is_err());
    assert!(FilePattern::new_glob(vec!["a[".to_string()]).is_err());
    let glob = FilePattern::new_glob(vec!["*.md".to_string(), "prek.toml".to_string()]).unwrap();
    assert!(glob.is_match("README.md"));
    assert!(glob.is_match("prek.toml"));
    assert!(!glob.is_match("main.rs"));
    assert_eq!(glob.shown(), "*.md, prek.toml");
    let re = FilePattern::new_regex(r"\.rs$").unwrap();
    assert!(re.is_match("src/main.rs"));
    assert!(!re.is_match("src/main.rs.bak"));
    assert_eq!(re.shown(), r"\.rs$");
    assert!(!FilePattern::Never.is_match(""));
    assert_eq!(FilePattern::Never.shown(), "");
}
