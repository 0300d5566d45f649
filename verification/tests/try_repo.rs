use prek::config::Language;
use prek::try_repo::{
    builtin_manifest, config_rev, head_rev_from_output, meta_manifest, prepare_step,
    remote_head_from_output, render_repo_config_toml, repo_kind, selected_hook_ids,
    HookSelection, PrepareAction, PrepareEvent, RepoKind,
};

fn strings(items: &[&str]) -> Vec<String> {
    items.iter().map(|s| s.to_string()).collect()
}

fn selection(includes: &[&str], skips: &[&str]) -> HookSelection {
    HookSelection { includes: strings(includes), skips: strings(skips) }
}

#[test]
fn repo_kinds() {
    assert_eq!(repo_kind("builtin"), RepoKind::Builtin);
    assert_eq!(repo_kind("meta"), RepoKind::Meta);
    assert_eq!(repo_kind("local"), RepoKind::Git);
    assert_eq!(repo_kind("../home/test-repos/try-repo-relative"), RepoKind::Git);
}

#[test]
fn config_rev_is_kept_for_git_repositories_only() {
    assert_eq!(config_rev("https://example.com/repo", Some("v1.0.0")), Some("v1.0.0"));
    assert_eq!(config_rev("builtin", Some("abc")), None);
    assert_eq!(config_rev("meta", Some("abc")), None);
    assert_eq!(config_rev("local", Some("abc")), None);
    assert_eq!(config_rev("/tmp/repo", None), None);
}

#[test]
fn generated_config_for_a_builtin_hook() {
    let text = render_repo_config_toml("builtin", None, strings(&["trailing-whitespace"]));
    assert_eq!(
        text,
        "[[repos]]\nrepo = \"builtin\"\nhooks = [\n  { id = \"trailing-whitespace\" },\n]\n"
    );
}

#[test]
fn generated_config_for_a_git_repository() {
    let text = render_repo_config_toml(
        "/home/test-repos/try-repo-basic",
        Some("0123456789abcdef0123456789abcdef01234567"),
        strings(&["test-hook", "another-hook"]),
    );
    assert_eq!(
        text,
        "[[repos]]\nrepo = \"/home/test-repos/try-repo-basic\"\n\
         rev = \"0123456789abcdef0123456789abcdef01234567\"\nhooks = [\n  \
         { id = \"test-hook\" },\n  { id = \"another-hook\" },\n]\n"
    );
}

#[test]
fn generated_config_for_a_relative_path_with_a_revision() {
    let text = render_repo_config_toml(
        "../home/test-repos/try-repo-relative",
        Some("v1.0.0"),
        strings(&["test-hook", "another-hook"]),
    );
    assert_eq!(
        text,
        "[[repos]]\nrepo = \"../home/test-repos/try-repo-relative\"\nrev = \"v1.0.0\"\n\
         hooks = [\n  { id = \"test-hook\" },\n  { id = \"another-hook\" },\n]\n"
    );
}

#[test]
fn generated_config_for_local_has_no_revision() {
    let text = render_repo_config_toml("local", Some("v1"), Vec::new());
    assert_eq!(text, "[[repos]]\nrepo = \"local\"\nhooks = [\n]\n");
}

#[test]
fn generated_config_keeps_duplicate_hooks_in_order() {
    let text = render_repo_config_toml("builtin", None, strings(&["b", "a", "b"]));
    assert_eq!(
        text,
        "[[repos]]\nrepo = \"builtin\"\nhooks = [\n  { id = \"b\" },\n  { id = \"a\" },\n  \
         { id = \"b\" },\n]\n"
    );
}

#[test]
fn generated_config_without_hooks() {
    let text = render_repo_config_toml("meta", Some("ignored"), Vec::new());
    assert_eq!(text, "[[repos]]\nrepo = \"meta\"\nhooks = [\n]\n");
}

#[test]
fn builtin_manifest_lists_every_builtin_hook() {
    let manifest = builtin_manifest();
    assert_eq!(manifest.hooks.len(), 23);
    assert!(manifest.hooks.iter().all(|h| h.language == Language::Rust));
    let eof = &manifest.hooks[15];
    assert_eq!(eof.id, "end-of-file-fixer");
    assert_eq!(eof.entry, "end-of-file-fixer");
    assert_eq!(manifest.hooks[22].entry, "trailing-whitespace-fixer");
}

#[test]
fn meta_manifest_lists_every_meta_hook() {
    let manifest = meta_manifest();
    let ids: Vec<&str> = manifest.hooks.iter().map(|h| h.id.as_str()).collect();
    assert_eq!(ids, vec!["check-hooks-apply", "check-useless-excludes", "identity"]);
    assert!(manifest.hooks.iter().all(|h| h.entry == "meta" && h.language == Language::System));
}

#[test]
fn selected_hooks_follow_manifest_order() {
    let manifest = builtin_manifest();
    let ids = selected_hook_ids(&manifest.hook_ids(), &selection(&["trailing-whitespace", "end-of-file-fixer"], &[]));
    assert_eq!(ids, strings(&["end-of-file-fixer", "trailing-whitespace"]));
    let none = selected_hook_ids(&manifest.hook_ids(), &selection(&["nonexistent-hook"], &[]));
    assert!(none.is_empty());
    let all = selected_hook_ids(&manifest.hook_ids(), &selection(&[], &[]));
    assert_eq!(all.len(), 23);
}

#[test]
fn skipped_meta_hooks_are_left_out() {
    let manifest = meta_manifest();
    let ids = selected_hook_ids(
        &manifest.hook_ids(),
        &selection(&[], &["check-hooks-apply", "check-useless-excludes"]),
    );
    assert_eq!(ids, strings(&["identity"]));
    let text = render_repo_config_toml("meta", None, ids);
    assert_eq!(text, "[[repos]]\nrepo = \"meta\"\nhooks = [\n  { id = \"identity\" },\n]\n");
}

#[test]
fn head_revisions_from_git_output() {
    assert_eq!(head_rev_from_output(b"  abc123\n"), "abc123");
    assert_eq!(head_rev_from_output(b"\n"), "");
    assert_eq!(
        remote_head_from_output(b"0123abcd\tHEAD\n"),
        Some("0123abcd".to_string())
    );
    assert_eq!(remote_head_from_output(b"  \n"), None);
    assert_eq!(remote_head_from_output(b""), None);
}

#[test]
fn prepare_uses_a_given_revision() {
    let action = prepare_step("repo", Some("v2"), true, PrepareEvent::Start);
    assert_eq!(action, PrepareAction::Finish { repo: "repo".to_string(), rev: "v2".to_string() });
}

#[test]
fn prepare_local_repository_with_changes() {
    let repo = "/home/repo";
    assert_eq!(prepare_step(repo, None, true, PrepareEvent::Start), PrepareAction::ReadLocalHead);
    assert_eq!(
        prepare_step(repo, None, true, PrepareEvent::LocalHead(b"abc\n".to_vec())),
        PrepareAction::CheckDiff { head_rev: "abc".to_string() }
    );
    assert_eq!(
        prepare_step(repo, None, true, PrepareEvent::Diff { head_rev: "abc".to_string(), has_diff: true }),
        PrepareAction::CommitToShadow { head_rev: "abc".to_string() }
    );
    assert_eq!(
        prepare_step(repo, None, true, PrepareEvent::Diff { head_rev: "abc".to_string(), has_diff: false }),
        PrepareAction::Finish { repo: repo.to_string(), rev: "abc".to_string() }
    );
    assert_eq!(
        prepare_step(
            repo,
            None,
            true,
            PrepareEvent::Shadow { path: "/tmp/shadow-repo".to_string(), head_output: b"def\n".to_vec() }
        ),
        PrepareAction::Finish { repo: "/tmp/shadow-repo".to_string(), rev: "def".to_string() }
    );
}

#[test]
fn prepare_remote_repository() {
    let repo = "https://example.com/hooks";
    assert_eq!(prepare_step(repo, None, false, PrepareEvent::Start), PrepareAction::ReadRemoteHead);
    assert_eq!(
        prepare_step(repo, None, false, PrepareEvent::RemoteHead(b"feed\tHEAD\n".to_vec())),
        PrepareAction::Finish { repo: repo.to_string(), rev: "feed".to_string() }
    );
    assert_eq!(
        prepare_step(repo, None, false, PrepareEvent::RemoteHead(Vec::new())),
        PrepareAction::Fail
    );
}
