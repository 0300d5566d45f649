use prek::config::{Language, MetaHook, PRE_COMMIT_CONFIG_YAML, PRE_COMMIT_CONFIG_YML, PREK_TOML};
use prek::meta_hooks::{
    excludes_any, hooks_apply_report, identity, keep_stripped, project_relative_files,
    useless_excludes_report,
    ConfigExcludes, HookApplication, HookExcludes, MetaHooks,
};
use prek::pattern::FilePattern;

fn regex_pattern(pattern: &str) -> FilePattern {
    FilePattern::new_regex(pattern).unwrap()
}

fn strings(items: &[&str]) -> Vec<String> {
    items.iter().map(|s| s.to_string()).collect()
}

#[test]
fn test_excludes_any() {
    let files = strings(&["file1.txt", "file2.txt", "file3.txt"]);
    let files_pattern = regex_pattern(r"file.*");
    let exclude = regex_pattern(r"file2\.txt");
    assert!(excludes_any(&files, Some(&files_pattern), Some(&exclude)));

    let files_pattern = regex_pattern(r"file.*");
    let exclude = regex_pattern(r"file4\.txt");
    assert!(!excludes_any(&files, Some(&files_pattern), Some(&exclude)));
    assert!(excludes_any(&files, None, None));

    let files = strings(&["html/file1.html", "html/file2.html"]);
    let exclude = regex_pattern(r"^html/");
    assert!(excludes_any(&files, None, Some(&exclude)));
}

#[test]
fn meta_hook_patterns_cover_config_files() {
    let apply = MetaHook::from_id("check-hooks-apply").expect("known meta hook");
    let apply_files = apply.options.files.as_ref().expect("files should be set");
    assert!(apply_files.is_match(PRE_COMMIT_CONFIG_YAML));
    assert!(apply_files.is_match(PRE_COMMIT_CONFIG_YML));
    assert!(apply_files.is_match(PREK_TOML));

    let useless = MetaHook::from_id("check-useless-excludes").expect("known meta hook");
    let useless_files = useless.options.files.as_ref().expect("files should be set");
    assert!(useless_files.is_match(PRE_COMMIT_CONFIG_YAML));
    assert!(useless_files.is_match(PRE_COMMIT_CONFIG_YML));
    assert!(useless_files.is_match(PREK_TOML));

    let identity = MetaHook::from_id("identity").expect("known meta hook");
    assert!(identity.options.files.is_none());
    assert_eq!(identity.options.verbose, Some(true));
}

#[test]
fn meta_hook_names_round_trip() {
    let names = MetaHooks::all_hooks();
    assert_eq!(names, strings(&["check-hooks-apply", "check-useless-excludes", "identity"]));
    for name in &names {
        let hook = MetaHooks::from_str(name).expect("listed name");
        assert_eq!(hook.as_str(), name.as_str());
        assert_eq!(MetaHook::from_id(name).unwrap().id, *name);
    }
    assert_eq!(MetaHooks::from_str("Identity"), None);
    assert_eq!(MetaHooks::from_str(""), None);
}

#[test]
fn meta_hook_unknown_id_is_refused() {
    assert!(MetaHook::from_id("nonexistent-hook").is_err());
    assert!(MetaHook::from_id("trailing-whitespace").is_err());
}

#[test]
fn meta_hook_definitions() {
    let apply = MetaHook::from_id("check-hooks-apply").unwrap();
    assert_eq!(apply.name, "Check hooks apply");
    assert_eq!(apply.priority, None);
    assert_eq!(apply.options.verbose, None);
    let useless = MetaHook::from_id("check-useless-excludes").unwrap();
    assert_eq!(useless.name, "Check useless excludes");
    let identity = MetaHook::from_id("identity").unwrap();
    assert_eq!(identity.name, "identity");
    assert!(!apply.options.files.as_ref().unwrap().is_match("README.md"));
}

#[test]
fn excludes_any_respects_the_files_pattern() {
    let files = strings(&["src/a.rs", "docs/b.md"]);
    let files_pattern = regex_pattern(r"\.md$");
    let exclude = regex_pattern(r"^src/");
    assert!(!excludes_any(&files, Some(&files_pattern), Some(&exclude)));
    assert!(excludes_any(&files, None, Some(&exclude)));
    let empty: Vec<String> = Vec::new();
    assert!(!excludes_any(&empty, None, Some(&exclude)));
    assert!(excludes_any(&empty, None, None));
    assert!(!excludes_any(&files, None, Some(&FilePattern::Never)));
}

#[test]
fn identity_joins_file_names() {
    let (code, out) = identity(&strings(&[".pre-commit-config.yaml", "src/main.rs"]));
    assert_eq!(code, 0);
    assert_eq!(out, b".pre-commit-config.yaml\nsrc/main.rs".to_vec());
    let (code, out) = identity(&[]);
    assert_eq!(code, 0);
    assert!(out.is_empty());
    let (_, out) = identity(&strings(&["caf\u{e9}.txt"]));
    assert_eq!(out, "caf\u{e9}.txt".as_bytes().to_vec());
}

fn application(id: &str, always_run: bool, language: Language, has_files: bool) -> HookApplication {
    HookApplication { id: id.to_string(), always_run, language, has_files }
}

#[test]
fn hooks_apply_report_lists_hooks_without_files() {
    let hooks = vec![
        application("test-hook", false, Language::System, false),
        application("always", true, Language::System, false),
        application("fail-hook", false, Language::Fail, false),
        application("good", false, Language::Rust, true),
        application("other", false, Language::Rust, false),
    ];
    let (code, out) = hooks_apply_report(&hooks);
    assert_eq!(code, 1);
    assert_eq!(
        String::from_utf8(out).unwrap(),
        "test-hook does not apply to this repository\nother does not apply to this repository\n"
    );
    let (code, out) = hooks_apply_report(&hooks[1..4]);
    assert_eq!(code, 0);
    assert!(out.is_empty());
}

#[test]
fn useless_excludes_report_lists_useless_patterns() {
    let project_files = strings(&["src/a.rs", "README.md"]);
    let configs = vec![ConfigExcludes {
        exclude: Some(regex_pattern(r"^vendor/")),
        hooks: vec![
            HookExcludes {
                id: "fmt".to_string(),
                files: None,
                exclude: Some(regex_pattern(r"^src/")),
                selected_files: strings(&["src/a.rs"]),
            },
            HookExcludes {
                id: "docs".to_string(),
                files: Some(regex_pattern(r"\.md$")),
                exclude: Some(regex_pattern(r"^src/")),
                selected_files: strings(&["src/a.rs", "README.md"]),
            },
            HookExcludes {
                id: "plain".to_string(),
                files: None,
                exclude: None,
                selected_files: Vec::new(),
            },
        ],
    }];
    let (code, out) = useless_excludes_report(&project_files, &configs);
    assert_eq!(code, 1);
    assert_eq!(
        String::from_utf8(out).unwrap(),
        "The global exclude pattern `^vendor/` does not match any files\n\
         The exclude pattern `^src/` for `docs` does not match any files\n"
    );

    let clean = vec![ConfigExcludes { exclude: Some(regex_pattern(r"\.md$")), hooks: Vec::new() }];
    let (code, out) = useless_excludes_report(&project_files, &clean);
    assert_eq!(code, 0);
    assert!(out.is_empty());
}

#[test]
fn useless_glob_exclude_is_shown_with_its_globs() {
    let project_files = strings(&["a.txt"]);
    let exclude = FilePattern::new_glob(strings(&["*.md", "docs/**"])).unwrap();
    let configs = vec![ConfigExcludes { exclude: Some(exclude), hooks: Vec::new() }];
    let (code, out) = useless_excludes_report(&project_files, &configs);
    assert_eq!(code, 1);
    assert_eq!(
        String::from_utf8(out).unwrap(),
        "The global exclude pattern `*.md, docs/**` does not match any files\n"
    );
}

#[test]
fn project_relative_files_strip_the_project_path() {
    let files = strings(&["sub/a.txt", "sub/dir/b.txt", "other/c.txt"]);
    assert_eq!(project_relative_files(&files, ""), files);
    assert_eq!(project_relative_files(&files, "sub"), strings(&["a.txt", "dir/b.txt"]));
}

#[test]
fn keep_stripped_keeps_the_stripped_paths_in_order() {
    let results = vec![Some("a.txt".to_string()), None, Some("dir/b.txt".to_string()), None];
    assert_eq!(keep_stripped(results), strings(&["a.txt", "dir/b.txt"]));
    assert_eq!(keep_stripped(vec![None, None]), Vec::<String>::new());
}

#[test]
fn excludes_any_holds_for_more_files() {
    let exclude = regex_pattern(r"^docs/");
    let few = strings(&["docs/a.md"]);
    let more = strings(&["src/b.rs", "docs/a.md", "docs/a.md"]);
    assert!(excludes_any(&few, None, Some(&exclude)));
    assert!(excludes_any(&more, None, Some(&exclude)));
    let reordered = strings(&["docs/a.md", "src/b.rs"]);
    assert_eq!(
        excludes_any(&more, None, Some(&exclude)),
        excludes_any(&reordered, None, Some(&exclude))
    );
}

#[test]
fn identity_output_splits_back_into_the_names() {
    let names = strings(&["a.txt", "dir/b.txt", "c"]);
    let (_, out) = identity(&names);
    let text = String::from_utf8(out).unwrap();
    let lines: Vec<String> = text.split('\n').map(|s| s.to_string()).collect();
    assert_eq!(lines, names);
}

#[test]
fn project_relative_files_cut_at_whole_components() {
    let files = strings(&["sub", "subway/a.txt", "sub/a.txt", "x/sub/b.txt", "sub/dir/c.txt"]);
    assert_eq!(
        project_relative_files(&files, "sub"),
        strings(&["", "a.txt", "dir/c.txt"])
    );
    assert_eq!(project_relative_files(&files, "sub/dir"), strings(&["c.txt"]));
}
