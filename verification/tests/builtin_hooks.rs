use prek::builtin_hooks::{BuiltinHooks, ILLEGAL_WINDOWS_PATTERN};
use prek::config::{BuiltinHook, PassFilenames, Stage};
use prek::pattern::FilePattern;

#[test]
fn builtin_hook_names_round_trip() {
    let names = BuiltinHooks::all_hooks();
    assert_eq!(names.len(), 23);
    assert_eq!(names[0], "check-added-large-files");
    assert_eq!(names[5], "check-json5");
    assert_eq!(names[22], "trailing-whitespace");
    for name in &names {
        let hook = BuiltinHooks::from_str(name).expect("listed name");
        assert_eq!(hook.as_str(), name.as_str());
        let def = BuiltinHook::from_id(name).expect("listed name has a definition");
        assert_eq!(def.id, *name);
        assert_eq!(def.priority, None);
    }
    let mut sorted = names.clone();
    sorted.sort();
    sorted.dedup();
    assert_eq!(sorted.len(), names.len());
}

#[test]
fn builtin_unknown_id_is_refused() {
    assert!(BuiltinHook::from_id("nonexistent-hook").is_err());
    assert!(BuiltinHook::from_id("identity").is_err());
    assert!(BuiltinHooks::from_str("Check-Json").is_none());
}

#[test]
fn trailing_whitespace_definition() {
    let hook = BuiltinHook::from_id("trailing-whitespace").unwrap();
    assert_eq!(hook.name, "trim trailing whitespace");
    assert_eq!(hook.entry, "trailing-whitespace-fixer");
    assert_eq!(hook.options.description.as_deref(), Some("trims trailing whitespace."));
    assert_eq!(hook.options.types, Some(vec!["text".to_string()]));
    assert_eq!(hook.options.stages, Some(vec![Stage::PreCommit, Stage::PrePush, Stage::Manual]));
    assert_eq!(hook.options.files, None);
}

#[test]
fn special_builtin_definitions() {
    let branch = BuiltinHook::from_id("no-commit-to-branch").unwrap();
    assert_eq!(branch.name, "don't commit to branch");
    assert_eq!(branch.options.description, None);
    assert_eq!(branch.options.pass_filenames, Some(PassFilenames::Nothing));
    assert_eq!(branch.options.always_run, Some(true));

    let sorter = BuiltinHook::from_id("file-contents-sorter").unwrap();
    assert_eq!(sorter.options.files, Some(FilePattern::Never));

    let shebangs = BuiltinHook::from_id("check-executables-have-shebangs").unwrap();
    assert_eq!(
        shebangs.options.types,
        Some(vec!["executable".to_string(), "text".to_string()])
    );

    let submodules = BuiltinHook::from_id("forbid-new-submodules").unwrap();
    assert_eq!(submodules.options.types, Some(vec!["directory".to_string()]));
    assert_eq!(
        submodules.options.description.as_deref(),
        Some("Prevent addition of new git submodules.")
    );
}

#[test]
fn illegal_windows_names_pattern() {
    assert!(FilePattern::new_regex(ILLEGAL_WINDOWS_PATTERN).is_ok());
    let hook = BuiltinHook::from_id("check-illegal-windows-names").unwrap();
    let files = hook.options.files.expect("files set");
    assert_eq!(files, FilePattern::Regex(ILLEGAL_WINDOWS_PATTERN.to_string()));
    for bad in ["CON", "dir/aux.txt", "a:b.txt", "name.", "dir/trailing /x", "com1", "lpt\u{b9}.txt"] {
        assert!(files.is_match(bad), "{bad} should be refused");
    }
    for good in ["src/main.rs", "console.txt", "a.b/c.txt"] {
        assert!(!files.is_match(good), "{good} should be allowed");
    }
}
