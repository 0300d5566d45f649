//! Built-in hooks: hooks implemented by the program itself, and the
//! definition that each of them is given.

use vstd::prelude::*;
use crate::config::{BuiltinHook, BuiltinHookView, HookOptions, HookOptionsView, PassFilenames, Stage};
use crate::pattern::{FilePattern, FilePatternView};
use crate::text::{same_text, views};

verus! {

/// The regular expression of file names that Windows cannot create: reserved
/// device names, forbidden characters, and names that end in a dot or a space.
pub const ILLEGAL_WINDOWS_PATTERN: &'static str = "(?i)((^|/)(CON|PRN|AUX|NUL|COM[\\d\u{b9}\u{b2}\u{b3}]|LPT[\\d\u{b9}\u{b2}\u{b3}])(\\.|/|$)|[<>:\"\\\\|?*\\x00-\\x1F]|/[^/]*[\\.\\s]/|[^/]*[\\.\\s]$)";

/// The built-in hooks, in the order they are listed.
#[derive(Clone, Copy, Debug, PartialEq, Eq, Structural)]
pub enum BuiltinHooks {
    CheckAddedLargeFiles,
    CheckCaseConflict,
    CheckExecutablesHaveShebangs,
    CheckIllegalWindowsNames,
    CheckJson,
    CheckJson5,
    CheckMergeConflict,
    CheckShebangScriptsAreExecutable,
    CheckSymlinks,
    CheckToml,
    CheckVcsPermalinks,
    CheckXml,
    CheckYaml,
    DestroyedSymlinks,
    DetectPrivateKey,
    EndOfFileFixer,
    FileContentsSorter,
    FixByteOrderMarker,
    ForbidNewSubmodules,
    MixedLineEnding,
    NoCommitToBranch,
    PrettyFormatJson,
    TrailingWhitespace,
}

/// Every built-in hook, in declaration order.
pub open spec fn all_builtin_hooks() -> Seq<BuiltinHooks> {
    seq![
        BuiltinHooks::CheckAddedLargeFiles,
        BuiltinHooks::CheckCaseConflict,
        BuiltinHooks::CheckExecutablesHaveShebangs,
        BuiltinHooks::CheckIllegalWindowsNames,
        BuiltinHooks::CheckJson,
        BuiltinHooks::CheckJson5,
        BuiltinHooks::CheckMergeConflict,
        BuiltinHooks::CheckShebangScriptsAreExecutable,
        BuiltinHooks::CheckSymlinks,
        BuiltinHooks::CheckToml,
        BuiltinHooks::CheckVcsPermalinks,
        BuiltinHooks::CheckXml,
        BuiltinHooks::CheckYaml,
        BuiltinHooks::DestroyedSymlinks,
        BuiltinHooks::DetectPrivateKey,
        BuiltinHooks::EndOfFileFixer,
        BuiltinHooks::FileContentsSorter,
        BuiltinHooks::FixByteOrderMarker,
        BuiltinHooks::ForbidNewSubmodules,
        BuiltinHooks::MixedLineEnding,
        BuiltinHooks::NoCommitToBranch,
        BuiltinHooks::PrettyFormatJson,
        BuiltinHooks::TrailingWhitespace,
    ]
}

impl BuiltinHooks {
    /// The kebab-case name of the hook.
    pub open spec fn name(self) -> Seq<char> {
        match self {
            BuiltinHooks::CheckAddedLargeFiles => "check-added-large-files"@,
            BuiltinHooks::CheckCaseConflict => "check-case-conflict"@,
            BuiltinHooks::CheckExecutablesHaveShebangs => "check-executables-have-shebangs"@,
            BuiltinHooks::CheckIllegalWindowsNames => "check-illegal-windows-names"@,
            BuiltinHooks::CheckJson => "check-json"@,
            BuiltinHooks::CheckJson5 => "check-json5"@,
            BuiltinHooks::CheckMergeConflict => "check-merge-conflict"@,
            BuiltinHooks::CheckShebangScriptsAreExecutable => "check-shebang-scripts-are-executable"@,
            BuiltinHooks::CheckSymlinks => "check-symlinks"@,
            BuiltinHooks::CheckToml => "check-toml"@,
            BuiltinHooks::CheckVcsPermalinks => "check-vcs-permalinks"@,
            BuiltinHooks::CheckXml => "check-xml"@,
            BuiltinHooks::CheckYaml => "check-yaml"@,
            BuiltinHooks::DestroyedSymlinks => "destroyed-symlinks"@,
            BuiltinHooks::DetectPrivateKey => "detect-private-key"@,
            BuiltinHooks::EndOfFileFixer => "end-of-file-fixer"@,
            BuiltinHooks::FileContentsSorter => "file-contents-sorter"@,
            BuiltinHooks::FixByteOrderMarker => "fix-byte-order-marker"@,
            BuiltinHooks::ForbidNewSubmodules => "forbid-new-submodules"@,
            BuiltinHooks::MixedLineEnding => "mixed-line-ending"@,
            BuiltinHooks::NoCommitToBranch => "no-commit-to-branch"@,
            BuiltinHooks::PrettyFormatJson => "pretty-format-json"@,
            BuiltinHooks::TrailingWhitespace => "trailing-whitespace"@,
        }
    }

    /// The hook whose name is `s`, if there is one.
    pub open spec fn named(s: Seq<char>) -> Option<BuiltinHooks> {
        if s == BuiltinHooks::CheckAddedLargeFiles.name() {
            Some(BuiltinHooks::CheckAddedLargeFiles)
        } else if s == BuiltinHooks::CheckCaseConflict.name() {
            Some(BuiltinHooks::CheckCaseConflict)
        } else if s == BuiltinHooks::CheckExecutablesHaveShebangs.name() {
            Some(BuiltinHooks::CheckExecutablesHaveShebangs)
        } else if s == BuiltinHooks::CheckIllegalWindowsNames.name() {
            Some(BuiltinHooks::CheckIllegalWindowsNames)
        } else if s == BuiltinHooks::CheckJson.name() {
            Some(BuiltinHooks::CheckJson)
        } else if s == BuiltinHooks::CheckJson5.name() {
            Some(BuiltinHooks::CheckJson5)
        } else if s == BuiltinHooks::CheckMergeConflict.name() {
            Some(BuiltinHooks::CheckMergeConflict)
        } else if s == BuiltinHooks::CheckShebangScriptsAreExecutable.name() {
            Some(BuiltinHooks::CheckShebangScriptsAreExecutable)
        } else if s == BuiltinHooks::CheckSymlinks.name() {
            Some(BuiltinHooks::CheckSymlinks)
        } else if s == BuiltinHooks::CheckToml.name() {
            Some(BuiltinHooks::CheckToml)
        } else if s == BuiltinHooks::CheckVcsPermalinks.name() {
            Some(BuiltinHooks::CheckVcsPermalinks)
        } else if s == BuiltinHooks::CheckXml.name() {
            Some(BuiltinHooks::CheckXml)
        } else if s == BuiltinHooks::CheckYaml.name() {
            Some(BuiltinHooks::CheckYaml)
        } else if s == BuiltinHooks::DestroyedSymlinks.name() {
            Some(BuiltinHooks::DestroyedSymlinks)
        } else if s == BuiltinHooks::DetectPrivateKey.name() {
            Some(BuiltinHooks::DetectPrivateKey)
        } else if s == BuiltinHooks::EndOfFileFixer.name() {
            Some(BuiltinHooks::EndOfFileFixer)
        } else if s == BuiltinHooks::FileContentsSorter.name() {
            Some(BuiltinHooks::FileContentsSorter)
        } else if s == BuiltinHooks::FixByteOrderMarker.name() {
            Some(BuiltinHooks::FixByteOrderMarker)
        } else if s == BuiltinHooks::ForbidNewSubmodules.name() {
            Some(BuiltinHooks::ForbidNewSubmodules)
        } else if s == BuiltinHooks::MixedLineEnding.name() {
            Some(BuiltinHooks::MixedLineEnding)
        } else if s == BuiltinHooks::NoCommitToBranch.name() {
            Some(BuiltinHooks::NoCommitToBranch)
        } else if s == BuiltinHooks::PrettyFormatJson.name() {
            Some(BuiltinHooks::PrettyFormatJson)
        } else if s == BuiltinHooks::TrailingWhitespace.name() {
            Some(BuiltinHooks::TrailingWhitespace)
        } else {
            None
        }
    }

    /// The kebab-case name of the hook.
    pub fn as_str(&self) -> (r: &'static str)
        ensures
            r@ == self.name(),
    {
        match self {
            BuiltinHooks::CheckAddedLargeFiles => "check-added-large-files",
            BuiltinHooks::CheckCaseConflict => "check-case-conflict",
            BuiltinHooks::CheckExecutablesHaveShebangs => "check-executables-have-shebangs",
            BuiltinHooks::CheckIllegalWindowsNames => "check-illegal-windows-names",
            BuiltinHooks::CheckJson => "check-json",
            BuiltinHooks::CheckJson5 => "check-json5",
            BuiltinHooks::CheckMergeConflict => "check-merge-conflict",
            BuiltinHooks::CheckShebangScriptsAreExecutable => "check-shebang-scripts-are-executable",
            BuiltinHooks::CheckSymlinks => "check-symlinks",
            BuiltinHooks::CheckToml => "check-toml",
            BuiltinHooks::CheckVcsPermalinks => "check-vcs-permalinks",
            BuiltinHooks::CheckXml => "check-xml",
            BuiltinHooks::CheckYaml => "check-yaml",
            BuiltinHooks::DestroyedSymlinks => "destroyed-symlinks",
            BuiltinHooks::DetectPrivateKey => "detect-private-key",
            BuiltinHooks::EndOfFileFixer => "end-of-file-fixer",
            BuiltinHooks::FileContentsSorter => "file-contents-sorter",
            BuiltinHooks::FixByteOrderMarker => "fix-byte-order-marker",
            BuiltinHooks::ForbidNewSubmodules => "forbid-new-submodules",
            BuiltinHooks::MixedLineEnding => "mixed-line-ending",
            BuiltinHooks::NoCommitToBranch => "no-commit-to-branch",
            BuiltinHooks::PrettyFormatJson => "pretty-format-json",
            BuiltinHooks::TrailingWhitespace => "trailing-whitespace",
        }
    }

    /// The hook with the given kebab-case name.
    pub fn from_str(s: &str) -> (r: Option<BuiltinHooks>)
        ensures
            r == BuiltinHooks::named(s@),
    {
        if same_text(s, "check-added-large-files") {
            Some(BuiltinHooks::CheckAddedLargeFiles)
        } else if same_text(s, "check-case-conflict") {
            Some(BuiltinHooks::CheckCaseConflict)
        } else if same_text(s, "check-executables-have-shebangs") {
            Some(BuiltinHooks::CheckExecutablesHaveShebangs)
        } else if same_text(s, "check-illegal-windows-names") {
            Some(BuiltinHooks::CheckIllegalWindowsNames)
        } else if same_text(s, "check-json") {
            Some(BuiltinHooks::CheckJson)
        } else if same_text(s, "check-json5") {
            Some(BuiltinHooks::CheckJson5)
        } else if same_text(s, "check-merge-conflict") {
            Some(BuiltinHooks::CheckMergeConflict)
        } else if same_text(s, "check-shebang-scripts-are-executable") {
            Some(BuiltinHooks::CheckShebangScriptsAreExecutable)
        } else if same_text(s, "check-symlinks") {
            Some(BuiltinHooks::CheckSymlinks)
        } else if same_text(s, "check-toml") {
            Some(BuiltinHooks::CheckToml)
        } else if same_text(s, "check-vcs-permalinks") {
            Some(BuiltinHooks::CheckVcsPermalinks)
        } else if same_text(s, "check-xml") {
            Some(BuiltinHooks::CheckXml)
        } else if same_text(s, "check-yaml") {
            Some(BuiltinHooks::CheckYaml)
        } else if same_text(s, "destroyed-symlinks") {
            Some(BuiltinHooks::DestroyedSymlinks)
        } else if same_text(s, "detect-private-key") {
            Some(BuiltinHooks::DetectPrivateKey)
        } else if same_text(s, "end-of-file-fixer") {
            Some(BuiltinHooks::EndOfFileFixer)
        } else if same_text(s, "file-contents-sorter") {
            Some(BuiltinHooks::FileContentsSorter)
        } else if same_text(s, "fix-byte-order-marker") {
            Some(BuiltinHooks::FixByteOrderMarker)
        } else if same_text(s, "forbid-new-submodules") {
            Some(BuiltinHooks::ForbidNewSubmodules)
        } else if same_text(s, "mixed-line-ending") {
            Some(BuiltinHooks::MixedLineEnding)
        } else if same_text(s, "no-commit-to-branch") {
            Some(BuiltinHooks::NoCommitToBranch)
        } else if same_text(s, "pretty-format-json") {
            Some(BuiltinHooks::PrettyFormatJson)
        } else if same_text(s, "trailing-whitespace") {
            Some(BuiltinHooks::TrailingWhitespace)
        } else {
            None
        }
    }

    /// The names of all built-in hooks, in declaration order.
    pub fn all_hooks() -> (r: Vec<String>)
        ensures
            views(r@) == all_builtin_hooks().map_values(|h: BuiltinHooks| h.name()),
    {
        let r = vec![
            BuiltinHooks::CheckAddedLargeFiles.as_str().to_owned(),
            BuiltinHooks::CheckCaseConflict.as_str().to_owned(),
            BuiltinHooks::CheckExecutablesHaveShebangs.as_str().to_owned(),
            BuiltinHooks::CheckIllegalWindowsNames.as_str().to_owned(),
            BuiltinHooks::CheckJson.as_str().to_owned(),
            BuiltinHooks::CheckJson5.as_str().to_owned(),
            BuiltinHooks::CheckMergeConflict.as_str().to_owned(),
            BuiltinHooks::CheckShebangScriptsAreExecutable.as_str().to_owned(),
            BuiltinHooks::CheckSymlinks.as_str().to_owned(),
            BuiltinHooks::CheckToml.as_str().to_owned(),
            BuiltinHooks::CheckVcsPermalinks.as_str().to_owned(),
            BuiltinHooks::CheckXml.as_str().to_owned(),
            BuiltinHooks::CheckYaml.as_str().to_owned(),
            BuiltinHooks::DestroyedSymlinks.as_str().to_owned(),
            BuiltinHooks::DetectPrivateKey.as_str().to_owned(),
            BuiltinHooks::EndOfFileFixer.as_str().to_owned(),
            BuiltinHooks::FileContentsSorter.as_str().to_owned(),
            BuiltinHooks::FixByteOrderMarker.as_str().to_owned(),
            BuiltinHooks::ForbidNewSubmodules.as_str().to_owned(),
            BuiltinHooks::MixedLineEnding.as_str().to_owned(),
            BuiltinHooks::NoCommitToBranch.as_str().to_owned(),
            BuiltinHooks::PrettyFormatJson.as_str().to_owned(),
            BuiltinHooks::TrailingWhitespace.as_str().to_owned(),
        ];
        assert(views(r@) == all_builtin_hooks().map_values(|h: BuiltinHooks| h.name()));
        r
    }
}

/// The stages at which the hooks that also guard pushes run.
pub open spec fn commit_push_manual() -> Seq<Stage> {
    seq![Stage::PreCommit, Stage::PrePush, Stage::Manual]
}

/// The definition of each built-in hook.
pub open spec fn builtin_definition(h: BuiltinHooks) -> BuiltinHookView {
    match h {
        BuiltinHooks::CheckAddedLargeFiles => BuiltinHookView {
            id: "check-added-large-files"@,
            name: "check for added large files"@,
            entry: "check-added-large-files"@,
            priority: None,
            options: HookOptionsView {
                description: Some("prevents giant files from being committed."@),
                stages: Some(commit_push_manual()),
                ..HookOptionsView::unset()
            },
        },
        BuiltinHooks::CheckCaseConflict => BuiltinHookView {
            id: "check-case-conflict"@,
            name: "check for case conflicts"@,
            entry: "check-case-conflict"@,
            priority: None,
            options: HookOptionsView {
                description: Some("checks for files that would conflict in case-insensitive filesystems"@),
                ..HookOptionsView::unset()
            },
        },
        BuiltinHooks::CheckExecutablesHaveShebangs => BuiltinHookView {
            id: "check-executables-have-shebangs"@,
            name: "check that executables have shebangs"@,
            entry: "check-executables-have-shebangs"@,
            priority: None,
            options: HookOptionsView {
                description: Some("ensures that (non-binary) executables have a shebang."@),
                types: Some(seq!["executable"@, "text"@]),
                stages: Some(commit_push_manual()),
                ..HookOptionsView::unset()
            },
        },
        BuiltinHooks::CheckIllegalWindowsNames => BuiltinHookView {
            id: "check-illegal-windows-names"@,
            name: "check illegal windows names"@,
            entry: "check-illegal-windows-names"@,
            priority: None,
            options: HookOptionsView {
                description: Some("checks for filenames which cannot be created on Windows."@),
                files: Some(FilePatternView::Regex(ILLEGAL_WINDOWS_PATTERN@)),
                ..HookOptionsView::unset()
            },
        },
        BuiltinHooks::CheckJson => BuiltinHookView {
            id: "check-json"@,
            name: "check json"@,
            entry: "check-json"@,
            priority: None,
            options: HookOptionsView {
                description: Some("checks json files for parseable syntax."@),
                types: Some(seq!["json"@]),
                ..HookOptionsView::unset()
            },
        },
        BuiltinHooks::CheckJson5 => BuiltinHookView {
            id: "check-json5"@,
            name: "check json5"@,
            entry: "check-json5"@,
            priority: None,
            options: HookOptionsView {
                description: Some("checks json5 files for parseable syntax."@),
                types: Some(seq!["json5"@]),
                ..HookOptionsView::unset()
            },
        },
        BuiltinHooks::CheckMergeConflict => BuiltinHookView {
            id: "check-merge-conflict"@,
            name: "check for merge conflicts"@,
            entry: "check-merge-conflict"@,
            priority: None,
            options: HookOptionsView {
                description: Some("checks for files that contain merge conflict strings."@),
                types: Some(seq!["text"@]),
                ..HookOptionsView::unset()
            },
        },
        BuiltinHooks::CheckShebangScriptsAreExecutable => BuiltinHookView {
            id: "check-shebang-scripts-are-executable"@,
            name: "check that scripts with shebangs are executable"@,
            entry: "check-shebang-scripts-are-executable"@,
            priority: None,
            options: HookOptionsView {
                description: Some("ensures that (non-binary) files with a shebang are executable."@),
                types: Some(seq!["text"@]),
                stages: Some(commit_push_manual()),
                ..HookOptionsView::unset()
            },
        },
        BuiltinHooks::CheckSymlinks => BuiltinHookView {
            id: "check-symlinks"@,
            name: "check for broken symlinks"@,
            entry: "check-symlinks"@,
            priority: None,
            options: HookOptionsView {
                description: Some("checks for symlinks which do not point to anything."@),
                types: Some(seq!["symlink"@]),
                ..HookOptionsView::unset()
            },
        },
        BuiltinHooks::CheckToml => BuiltinHookView {
            id: "check-toml"@,
            name: "check toml"@,
            entry: "check-toml"@,
            priority: None,
            options: HookOptionsView {
                description: Some("checks toml files for parseable syntax."@),
                types: Some(seq!["toml"@]),
                ..HookOptionsView::unset()
            },
        },
        BuiltinHooks::CheckVcsPermalinks => BuiltinHookView {
            id: "check-vcs-permalinks"@,
            name: "check vcs permalinks"@,
            entry: "check-vcs-permalinks"@,
            priority: None,
            options: HookOptionsView {
                description: Some("ensures that links to vcs websites are permalinks."@),
                types: Some(seq!["text"@]),
                ..HookOptionsView::unset()
            },
        },
        BuiltinHooks::CheckXml => BuiltinHookView {
            id: "check-xml"@,
            name: "check xml"@,
            entry: "check-xml"@,
            priority: None,
            options: HookOptionsView {
                description: Some("checks xml files for parseable syntax."@),
                types: Some(seq!["xml"@]),
                ..HookOptionsView::unset()
            },
        },
        BuiltinHooks::CheckYaml => BuiltinHookView {
            id: "check-yaml"@,
            name: "check yaml"@,
            entry: "check-yaml"@,
            priority: None,
            options: HookOptionsView {
                description: Some("checks yaml files for parseable syntax."@),
                types: Some(seq!["yaml"@]),
                ..HookOptionsView::unset()
            },
        },
        BuiltinHooks::DestroyedSymlinks => BuiltinHookView {
            id: "destroyed-symlinks"@,
            name: "detect destroyed symlinks"@,
            entry: "destroyed-symlinks"@,
            priority: None,
            options: HookOptionsView {
                description: Some("detects symlinks that were replaced with regular files whose contents are the original symlink target path."@),
                types: Some(seq!["file"@]),
                stages: Some(commit_push_manual()),
                ..HookOptionsView::unset()
            },
        },
        BuiltinHooks::DetectPrivateKey => BuiltinHookView {
            id: "detect-private-key"@,
            name: "detect private key"@,
            entry: "detect-private-key"@,
            priority: None,
            options: HookOptionsView {
                description: Some("detects the presence of private keys."@),
                types: Some(seq!["text"@]),
                ..HookOptionsView::unset()
            },
        },
        BuiltinHooks::EndOfFileFixer => BuiltinHookView {
            id: "end-of-file-fixer"@,
            name: "fix end of files"@,
            entry: "end-of-file-fixer"@,
            priority: None,
            options: HookOptionsView {
                description: Some("ensures that a file is either empty, or ends with one newline."@),
                types: Some(seq!["text"@]),
                stages: Some(commit_push_manual()),
                ..HookOptionsView::unset()
            },
        },
        BuiltinHooks::FileContentsSorter => BuiltinHookView {
            id: "file-contents-sorter"@,
            name: "file contents sorter"@,
            entry: "file-contents-sorter"@,
            priority: None,
            options: HookOptionsView {
                description: Some("sorts the lines in specified files (defaults to alphabetical)."@),
                files: Some(FilePatternView::Never),
                ..HookOptionsView::unset()
            },
        },
        BuiltinHooks::FixByteOrderMarker => BuiltinHookView {
            id: "fix-byte-order-marker"@,
            name: "fix utf-8 byte order marker"@,
            entry: "fix-byte-order-marker"@,
            priority: None,
            options: HookOptionsView {
                description: Some("removes utf-8 byte order marker."@),
                types: Some(seq!["text"@]),
                ..HookOptionsView::unset()
            },
        },
        BuiltinHooks::ForbidNewSubmodules => BuiltinHookView {
            id: "forbid-new-submodules"@,
            name: "forbid new submodules"@,
            entry: "forbid-new-submodules"@,
            priority: None,
            options: HookOptionsView {
                description: Some("Prevent addition of new git submodules."@),
                types: Some(seq!["directory"@]),
                ..HookOptionsView::unset()
            },
        },
        BuiltinHooks::MixedLineEnding => BuiltinHookView {
            id: "mixed-line-ending"@,
            name: "mixed line ending"@,
            entry: "mixed-line-ending"@,
            priority: None,
            options: HookOptionsView {
                description: Some("replaces or checks mixed line ending."@),
                types: Some(seq!["text"@]),
                ..HookOptionsView::unset()
            },
        },
        BuiltinHooks::NoCommitToBranch => BuiltinHookView {
            id: "no-commit-to-branch"@,
            name: "don't commit to branch"@,
            entry: "no-commit-to-branch"@,
            priority: None,
            options: HookOptionsView {
                pass_filenames: Some(PassFilenames::Nothing),
                always_run: Some(true),
                ..HookOptionsView::unset()
            },
        },
        BuiltinHooks::PrettyFormatJson => BuiltinHookView {
            id: "pretty-format-json"@,
            name: "pretty format json"@,
            entry: "pretty-format-json"@,
            priority: None,
            options: HookOptionsView {
                description: Some("checks that JSON files are pretty-formatted."@),
                types: Some(seq!["json"@]),
                stages: Some(commit_push_manual()),
                ..HookOptionsView::unset()
            },
        },
        BuiltinHooks::TrailingWhitespace => BuiltinHookView {
            id: "trailing-whitespace"@,
            name: "trim trailing whitespace"@,
            entry: "trailing-whitespace-fixer"@,
            priority: None,
            options: HookOptionsView {
                description: Some("trims trailing whitespace."@),
                types: Some(seq!["text"@]),
                stages: Some(commit_push_manual()),
                ..HookOptionsView::unset()
            },
        },
    }
}

/// A tag set of one tag.
fn one_tag(a: &str) -> (r: Vec<String>)
    ensures
        views(r@) == seq![a@],
{
    let r = vec![a.to_owned()];
    assert(views(r@) == seq![a@]);
    r
}

/// A tag set of two tags.
fn two_tags(a: &str, b: &str) -> (r: Vec<String>)
    ensures
        views(r@) == seq![a@, b@],
{
    let r = vec![a.to_owned(), b.to_owned()];
    assert(views(r@) == seq![a@, b@]);
    r
}

fn commit_push_manual_stages() -> (r: Vec<Stage>)
    ensures
        r@ == commit_push_manual(),
{
    vec![Stage::PreCommit, Stage::PrePush, Stage::Manual]
}

/// The definition of a built-in hook.
fn definition(h: BuiltinHooks) -> (r: BuiltinHook)
    ensures
        r@ == builtin_definition(h),
{
    match h {
        BuiltinHooks::CheckAddedLargeFiles => BuiltinHook {
            id: "check-added-large-files".to_owned(),
            name: "check for added large files".to_owned(),
            entry: "check-added-large-files".to_owned(),
            priority: None,
            options: HookOptions {
                description: Some("prevents giant files from being committed.".to_owned()),
                stages: Some(commit_push_manual_stages()),
                ..HookOptions::unset()
            },
        },
        BuiltinHooks::CheckCaseConflict => BuiltinHook {
            id: "check-case-conflict".to_owned(),
            name: "check for case conflicts".to_owned(),
            entry: "check-case-conflict".to_owned(),
            priority: None,
            options: HookOptions {
                description: Some("checks for files that would conflict in case-insensitive filesystems".to_owned()),
                ..HookOptions::unset()
            },
        },
        BuiltinHooks::CheckExecutablesHaveShebangs => BuiltinHook {
            id: "check-executables-have-shebangs".to_owned(),
            name: "check that executables have shebangs".to_owned(),
            entry: "check-executables-have-shebangs".to_owned(),
            priority: None,
            options: HookOptions {
                description: Some("ensures that (non-binary) executables have a shebang.".to_owned()),
                types: Some(two_tags("executable", "text")),
                stages: Some(commit_push_manual_stages()),
                ..HookOptions::unset()
            },
        },
        BuiltinHooks::CheckIllegalWindowsNames => BuiltinHook {
            id: "check-illegal-windows-names".to_owned(),
            name: "check illegal windows names".to_owned(),
            entry: "check-illegal-windows-names".to_owned(),
            priority: None,
            options: HookOptions {
                description: Some("checks for filenames which cannot be created on Windows.".to_owned()),
                files: Some(FilePattern::Regex(ILLEGAL_WINDOWS_PATTERN.to_owned())),
                ..HookOptions::unset()
            },
        },
        BuiltinHooks::CheckJson => BuiltinHook {
            id: "check-json".to_owned(),
            name: "check json".to_owned(),
            entry: "check-json".to_owned(),
            priority: None,
            options: HookOptions {
                description: Some("checks json files for parseable syntax.".to_owned()),
                types: Some(one_tag("json")),
                ..HookOptions::unset()
            },
        },
        BuiltinHooks::CheckJson5 => BuiltinHook {
            id: "check-json5".to_owned(),
            name: "check json5".to_owned(),
            entry: "check-json5".to_owned(),
            priority: None,
            options: HookOptions {
                description: Some("checks json5 files for parseable syntax.".to_owned()),
                types: Some(one_tag("json5")),
                ..HookOptions::unset()
            },
        },
        BuiltinHooks::CheckMergeConflict => BuiltinHook {
            id: "check-merge-conflict".to_owned(),
            name: "check for merge conflicts".to_owned(),
            entry: "check-merge-conflict".to_owned(),
            priority: None,
            options: HookOptions {
                description: Some("checks for files that contain merge conflict strings.".to_owned()),
                types: Some(one_tag("text")),
                ..HookOptions::unset()
            },
        },
        BuiltinHooks::CheckShebangScriptsAreExecutable => BuiltinHook {
            id: "check-shebang-scripts-are-executable".to_owned(),
            name: "check that scripts with shebangs are executable".to_owned(),
            entry: "check-shebang-scripts-are-executable".to_owned(),
            priority: None,
            options: HookOptions {
                description: Some("ensures that (non-binary) files with a shebang are executable.".to_owned()),
                types: Some(one_tag("text")),
                stages: Some(commit_push_manual_stages()),
                ..HookOptions::unset()
            },
        },
        BuiltinHooks::CheckSymlinks => BuiltinHook {
            id: "check-symlinks".to_owned(),
            name: "check for broken symlinks".to_owned(),
            entry: "check-symlinks".to_owned(),
            priority: None,
            options: HookOptions {
                description: Some("checks for symlinks which do not point to anything.".to_owned()),
                types: Some(one_tag("symlink")),
                ..HookOptions::unset()
            },
        },
        BuiltinHooks::CheckToml => BuiltinHook {
            id: "check-toml".to_owned(),
            name: "check toml".to_owned(),
            entry: "check-toml".to_owned(),
            priority: None,
            options: HookOptions {
                description: Some("checks toml files for parseable syntax.".to_owned()),
                types: Some(one_tag("toml")),
                ..HookOptions::unset()
            },
        },
        BuiltinHooks::CheckVcsPermalinks => BuiltinHook {
            id: "check-vcs-permalinks".to_owned(),
            name: "check vcs permalinks".to_owned(),
            entry: "check-vcs-permalinks".to_owned(),
            priority: None,
            options: HookOptions {
                description: Some("ensures that links to vcs websites are permalinks.".to_owned()),
                types: Some(one_tag("text")),
                ..HookOptions::unset()
            },
        },
        BuiltinHooks::CheckXml => BuiltinHook {
            id: "check-xml".to_owned(),
            name: "check xml".to_owned(),
            entry: "check-xml".to_owned(),
            priority: None,
            options: HookOptions {
                description: Some("checks xml files for parseable syntax.".to_owned()),
                types: Some(one_tag("xml")),
                ..HookOptions::unset()
            },
        },
        BuiltinHooks::CheckYaml => BuiltinHook {
            id: "check-yaml".to_owned(),
            name: "check yaml".to_owned(),
            entry: "check-yaml".to_owned(),
            priority: None,
            options: HookOptions {
                description: Some("checks yaml files for parseable syntax.".to_owned()),
                types: Some(one_tag("yaml")),
                ..HookOptions::unset()
            },
        },
        BuiltinHooks::DestroyedSymlinks => BuiltinHook {
            id: "destroyed-symlinks".to_owned(),
            name: "detect destroyed symlinks".to_owned(),
            entry: "destroyed-symlinks".to_owned(),
            priority: None,
            options: HookOptions {
                description: Some("detects symlinks that were replaced with regular files whose contents are the original symlink target path.".to_owned()),
                types: Some(one_tag("file")),
                stages: Some(commit_push_manual_stages()),
                ..HookOptions::unset()
            },
        },
        BuiltinHooks::DetectPrivateKey => BuiltinHook {
            id: "detect-private-key".to_owned(),
            name: "detect private key".to_owned(),
            entry: "detect-private-key".to_owned(),
            priority: None,
            options: HookOptions {
                description: Some("detects the presence of private keys.".to_owned()),
                types: Some(one_tag("text")),
                ..HookOptions::unset()
            },
        },
        BuiltinHooks::EndOfFileFixer => BuiltinHook {
            id: "end-of-file-fixer".to_owned(),
            name: "fix end of files".to_owned(),
            entry: "end-of-file-fixer".to_owned(),
            priority: None,
            options: HookOptions {
                description: Some("ensures that a file is either empty, or ends with one newline.".to_owned()),
                types: Some(one_tag("text")),
                stages: Some(commit_push_manual_stages()),
                ..HookOptions::unset()
            },
        },
        BuiltinHooks::FileContentsSorter => BuiltinHook {
            id: "file-contents-sorter".to_owned(),
            name: "file contents sorter".to_owned(),
            entry: "file-contents-sorter".to_owned(),
            priority: None,
            options: HookOptions {
                description: Some("sorts the lines in specified files (defaults to alphabetical).".to_owned()),
                files: Some(FilePattern::Never),
                ..HookOptions::unset()
            },
        },
        BuiltinHooks::FixByteOrderMarker => BuiltinHook {
            id: "fix-byte-order-marker".to_owned(),
            name: "fix utf-8 byte order marker".to_owned(),
            entry: "fix-byte-order-marker".to_owned(),
            priority: None,
            options: HookOptions {
                description: Some("removes utf-8 byte order marker.".to_owned()),
                types: Some(one_tag("text")),
                ..HookOptions::unset()
            },
        },
        BuiltinHooks::ForbidNewSubmodules => BuiltinHook {
            id: "forbid-new-submodules".to_owned(),
            name: "forbid new submodules".to_owned(),
            entry: "forbid-new-submodules".to_owned(),
            priority: None,
            options: HookOptions {
                description: Some("Prevent addition of new git submodules.".to_owned()),
                types: Some(one_tag("directory")),
                ..HookOptions::unset()
            },
        },
        BuiltinHooks::MixedLineEnding => BuiltinHook {
            id: "mixed-line-ending".to_owned(),
            name: "mixed line ending".to_owned(),
            entry: "mixed-line-ending".to_owned(),
            priority: None,
            options: HookOptions {
                description: Some("replaces or checks mixed line ending.".to_owned()),
                types: Some(one_tag("text")),
                ..HookOptions::unset()
            },
        },
        BuiltinHooks::NoCommitToBranch => BuiltinHook {
            id: "no-commit-to-branch".to_owned(),
            name: "don't commit to branch".to_owned(),
            entry: "no-commit-to-branch".to_owned(),
            priority: None,
            options: HookOptions {
                pass_filenames: Some(PassFilenames::Nothing),
                always_run: Some(true),
                ..HookOptions::unset()
            },
        },
        BuiltinHooks::PrettyFormatJson => BuiltinHook {
            id: "pretty-format-json".to_owned(),
            name: "pretty format json".to_owned(),
            entry: "pretty-format-json".to_owned(),
            priority: None,
            options: HookOptions {
                description: Some("checks that JSON files are pretty-formatted.".to_owned()),
                types: Some(one_tag("json")),
                stages: Some(commit_push_manual_stages()),
                ..HookOptions::unset()
            },
        },
        BuiltinHooks::TrailingWhitespace => BuiltinHook {
            id: "trailing-whitespace".to_owned(),
            name: "trim trailing whitespace".to_owned(),
            entry: "trailing-whitespace-fixer".to_owned(),
            priority: None,
            options: HookOptions {
                description: Some("trims trailing whitespace.".to_owned()),
                types: Some(one_tag("text")),
                stages: Some(commit_push_manual_stages()),
                ..HookOptions::unset()
            },
        },
    }
}

impl BuiltinHook {
    /// The definition of the built-in hook with the given id; `Err` where no
    /// built-in hook has that id.
    pub fn from_id(id: &str) -> (r: Result<BuiltinHook, ()>)
        ensures
            match BuiltinHooks::named(id@) {
                Some(h) => r matches Ok(b) && b@ == builtin_definition(h),
                None => r is Err,
            },
    {
        match BuiltinHooks::from_str(id) {
            Some(h) => Ok(definition(h)),
            None => Err(()),
        }
    }
}


/// The file tags that each built-in hook runs on, by hook name: `None` for a
/// hook that runs on files of any type.
pub open spec fn builtin_tag_sets() -> Seq<(Seq<char>, Option<Seq<Seq<char>>>)> {
    seq![
        ("check-added-large-files"@, None),
        ("check-case-conflict"@, None),
        ("check-executables-have-shebangs"@, Some(seq!["executable"@, "text"@])),
        ("check-illegal-windows-names"@, None),
        ("check-json"@, Some(seq!["json"@])),
        ("check-json5"@, Some(seq!["json5"@])),
        ("check-merge-conflict"@, Some(seq!["text"@])),
        ("check-shebang-scripts-are-executable"@, Some(seq!["text"@])),
        ("check-symlinks"@, Some(seq!["symlink"@])),
        ("check-toml"@, Some(seq!["toml"@])),
        ("check-vcs-permalinks"@, Some(seq!["text"@])),
        ("check-xml"@, Some(seq!["xml"@])),
        ("check-yaml"@, Some(seq!["yaml"@])),
        ("destroyed-symlinks"@, Some(seq!["file"@])),
        ("detect-private-key"@, Some(seq!["text"@])),
        ("end-of-file-fixer"@, Some(seq!["text"@])),
        ("file-contents-sorter"@, None),
        ("fix-byte-order-marker"@, Some(seq!["text"@])),
        ("forbid-new-submodules"@, Some(seq!["directory"@])),
        ("mixed-line-ending"@, Some(seq!["text"@])),
        ("no-commit-to-branch"@, None),
        ("pretty-format-json"@, Some(seq!["json"@])),
        ("trailing-whitespace"@, Some(seq!["text"@])),
    ]
}

/// Whether `t` is the tag of a file format whose syntax a built-in hook
/// checks.
pub open spec fn checked_format(t: Seq<char>) -> bool {
    t == "json"@ || t == "json5"@ || t == "toml"@ || t == "xml"@ || t == "yaml"@
}

/// Each built-in hook runs on the file tags listed for its name: the name
/// found in the list is the name of a built-in hook, whose definition has
/// exactly those types, and the list names every built-in hook.
pub proof fn lemma_builtin_types_by_name(i: int, h: BuiltinHooks)
    requires
        0 <= i < builtin_tag_sets().len(),
    ensures
        builtin_tag_sets().len() == all_builtin_hooks().len(),
        BuiltinHooks::named(builtin_tag_sets()[i].0) matches Some(g) && builtin_definition(g).options.types
            == builtin_tag_sets()[i].1,
        exists|j: int|
            0 <= j < builtin_tag_sets().len() && #[trigger] builtin_tag_sets()[j].0 == h.name(),
{
    let all = all_builtin_hooks();
    let table = builtin_tag_sets();
    let g = all[i];
    lemma_builtin_name_round_trip(g);
    assert(table[i].0 == g.name());
    lemma_all_builtin_hooks_listed(h);
    let j = choose|j: int| 0 <= j < all.len() && all[j] == h;
    assert(table[j].0 == h.name());
}

/// A built-in hook that checks the syntax of a file format, `check-<format>`,
/// runs on the files of that format alone.
pub proof fn lemma_format_checks_run_on_their_format(t: Seq<char>)
    requires
        checked_format(t),
    ensures
        BuiltinHooks::named("check-"@ + t) matches Some(h) && builtin_definition(h).options.types
            == Some(seq![t]),
{
    reveal_strlit("check-");
    reveal_strlit("json");
    reveal_strlit("json5");
    reveal_strlit("toml");
    reveal_strlit("xml");
    reveal_strlit("yaml");
    reveal_strlit("check-json");
    reveal_strlit("check-json5");
    reveal_strlit("check-toml");
    reveal_strlit("check-xml");
    reveal_strlit("check-yaml");
    let h = if t == "json"@ {
        BuiltinHooks::CheckJson
    } else if t == "json5"@ {
        BuiltinHooks::CheckJson5
    } else if t == "toml"@ {
        BuiltinHooks::CheckToml
    } else if t == "xml"@ {
        BuiltinHooks::CheckXml
    } else {
        BuiltinHooks::CheckYaml
    };
    assert("check-"@ + t == h.name());
    lemma_builtin_name_round_trip(h);
}

/// Two different built-in hooks have different names.
pub proof fn lemma_builtin_names_distinct(a: BuiltinHooks, b: BuiltinHooks)
    ensures
        a != b ==> a.name() != b.name(),
{
    reveal_strlit("check-added-large-files");
    reveal_strlit("check-case-conflict");
    reveal_strlit("check-executables-have-shebangs");
    reveal_strlit("check-illegal-windows-names");
    reveal_strlit("check-json");
    reveal_strlit("check-json5");
    reveal_strlit("check-merge-conflict");
    reveal_strlit("check-shebang-scripts-are-executable");
    reveal_strlit("check-symlinks");
    reveal_strlit("check-toml");
    reveal_strlit("check-vcs-permalinks");
    reveal_strlit("check-xml");
    reveal_strlit("check-yaml");
    reveal_strlit("destroyed-symlinks");
    reveal_strlit("detect-private-key");
    reveal_strlit("end-of-file-fixer");
    reveal_strlit("file-contents-sorter");
    reveal_strlit("fix-byte-order-marker");
    reveal_strlit("forbid-new-submodules");
    reveal_strlit("mixed-line-ending");
    reveal_strlit("no-commit-to-branch");
    reveal_strlit("pretty-format-json");
    reveal_strlit("trailing-whitespace");
    assert(a.name().len() > 7 && b.name().len() > 7);
    assert(a != b ==> a.name().len() != b.name().len() || a.name()[7] != b.name()[7]);
}

/// Reading a built-in hook's name gives the hook back.
pub proof fn lemma_builtin_name_round_trip(h: BuiltinHooks)
    ensures
        BuiltinHooks::named(h.name()) == Some(h),
{
    assert forall|g: BuiltinHooks| g != h implies g.name() != h.name() by {
        lemma_builtin_names_distinct(g, h);
    }
}

/// The list of all built-in hooks holds each hook exactly once.
pub proof fn lemma_all_builtin_hooks_listed(h: BuiltinHooks)
    ensures
        all_builtin_hooks().contains(h),
        forall|i: int, j: int|
            0 <= i < j < all_builtin_hooks().len() ==> #[trigger] all_builtin_hooks()[i]
                != #[trigger] all_builtin_hooks()[j],
{
    let all = all_builtin_hooks();
    match h {
        BuiltinHooks::CheckAddedLargeFiles => assert(all[0] == h),
        BuiltinHooks::CheckCaseConflict => assert(all[1] == h),
        BuiltinHooks::CheckExecutablesHaveShebangs => assert(all[2] == h),
        BuiltinHooks::CheckIllegalWindowsNames => assert(all[3] == h),
        BuiltinHooks::CheckJson => assert(all[4] == h),
        BuiltinHooks::CheckJson5 => assert(all[5] == h),
        BuiltinHooks::CheckMergeConflict => assert(all[6] == h),
        BuiltinHooks::CheckShebangScriptsAreExecutable => assert(all[7] == h),
        BuiltinHooks::CheckSymlinks => assert(all[8] == h),
        BuiltinHooks::CheckToml => assert(all[9] == h),
        BuiltinHooks::CheckVcsPermalinks => assert(all[10] == h),
        BuiltinHooks::CheckXml => assert(all[11] == h),
        BuiltinHooks::CheckYaml => assert(all[12] == h),
        BuiltinHooks::DestroyedSymlinks => assert(all[13] == h),
        BuiltinHooks::DetectPrivateKey => assert(all[14] == h),
        BuiltinHooks::EndOfFileFixer => assert(all[15] == h),
        BuiltinHooks::FileContentsSorter => assert(all[16] == h),
        BuiltinHooks::FixByteOrderMarker => assert(all[17] == h),
        BuiltinHooks::ForbidNewSubmodules => assert(all[18] == h),
        BuiltinHooks::MixedLineEnding => assert(all[19] == h),
        BuiltinHooks::NoCommitToBranch => assert(all[20] == h),
        BuiltinHooks::PrettyFormatJson => assert(all[21] == h),
        BuiltinHooks::TrailingWhitespace => assert(all[22] == h),
    }
}

/// A built-in hook's definition carries the hook's name as its id.
pub proof fn lemma_builtin_definition_id(h: BuiltinHooks)
    ensures
        builtin_definition(h).id == h.name(),
{
}

/// Each name that `all_hooks` lists is accepted by `from_id`, which gives the
/// definition of the hook listed there.
pub proof fn lemma_builtin_listed_names_defined(i: int)
    requires
        0 <= i < all_builtin_hooks().len(),
    ensures
        BuiltinHooks::named(all_builtin_hooks()[i].name()) == Some(all_builtin_hooks()[i]),
        builtin_definition(all_builtin_hooks()[i]).id == all_builtin_hooks()[i].name(),
{
    lemma_builtin_name_round_trip(all_builtin_hooks()[i]);
}

} // verus!
