//! Hook definitions: options, built-in and meta hook records, manifests, and
//! the names of the configuration files.

use vstd::prelude::*;
use crate::pattern::{FilePattern, FilePatternView};
use crate::text::views;

verus! {

/// Name of the YAML configuration file.
pub const PRE_COMMIT_CONFIG_YAML: &'static str = ".pre-commit-config.yaml";

/// Name of the YAML configuration file, short extension.
pub const PRE_COMMIT_CONFIG_YML: &'static str = ".pre-commit-config.yml";

/// Name of the TOML configuration file.
pub const PREK_TOML: &'static str = "prek.toml";

/// Name of the manifest that a hook repository holds.
pub const PRE_COMMIT_HOOKS_YAML: &'static str = ".pre-commit-hooks.yaml";

/// The names of the configuration files, in the order they are looked for.
pub open spec fn config_filenames_spec() -> Seq<Seq<char>> {
    seq![PREK_TOML@, PRE_COMMIT_CONFIG_YAML@, PRE_COMMIT_CONFIG_YML@]
}

/// The names of the configuration files.
pub fn config_filenames() -> (r: Vec<String>)
    ensures
        views(r@) == config_filenames_spec(),
{
    let r = vec![PREK_TOML.to_owned(), PRE_COMMIT_CONFIG_YAML.to_owned(), PRE_COMMIT_CONFIG_YML.to_owned()];
    assert(views(r@) == config_filenames_spec());
    r
}

/// A git hook stage.
#[derive(Clone, Copy, Debug, PartialEq, Eq, Structural)]
pub enum Stage {
    PreCommit,
    PrePush,
    Manual,
}

/// Which file names are passed to a hook.
#[derive(Clone, Copy, Debug, PartialEq, Eq, Structural)]
pub enum PassFilenames {
    /// All matching files.
    All,
    /// No file names at all.
    Nothing,
}

/// The language a hook is run with.
#[derive(Clone, Copy, Debug, PartialEq, Eq, Structural)]
pub enum Language {
    Fail,
    Rust,
    System,
}

/// The options of a hook; `None` leaves an option unset.
#[derive(Clone, Debug, PartialEq, Eq)]
pub struct HookOptions {
    pub description: Option<String>,
    pub files: Option<FilePattern>,
    pub exclude: Option<FilePattern>,
    pub types: Option<Vec<String>>,
    pub stages: Option<Vec<Stage>>,
    pub pass_filenames: Option<PassFilenames>,
    pub always_run: Option<bool>,
    pub verbose: Option<bool>,
}

/// The mathematical value of [`HookOptions`].
pub struct HookOptionsView {
    pub description: Option<Seq<char>>,
    pub files: Option<FilePatternView>,
    pub exclude: Option<FilePatternView>,
    pub types: Option<Seq<Seq<char>>>,
    pub stages: Option<Seq<Stage>>,
    pub pass_filenames: Option<PassFilenames>,
    pub always_run: Option<bool>,
    pub verbose: Option<bool>,
}

/// The view of an optional string.
pub open spec fn opt_text(o: Option<String>) -> Option<Seq<char>> {
    match o {
        Some(s) => Some(s@),
        None => None,
    }
}

/// The view of an optional pattern.
pub open spec fn opt_pattern(o: Option<FilePattern>) -> Option<FilePatternView> {
    match o {
        Some(p) => Some(p@),
        None => None,
    }
}

/// The view of an optional list of strings.
pub open spec fn opt_texts(o: Option<Vec<String>>) -> Option<Seq<Seq<char>>> {
    match o {
        Some(v) => Some(views(v@)),
        None => None,
    }
}

/// The view of an optional list of stages.
pub open spec fn opt_stages(o: Option<Vec<Stage>>) -> Option<Seq<Stage>> {
    match o {
        Some(v) => Some(v@),
        None => None,
    }
}

impl View for HookOptions {
    type V = HookOptionsView;

    open spec fn view(&self) -> HookOptionsView {
        HookOptionsView {
            description: opt_text(self.description),
            files: opt_pattern(self.files),
            exclude: opt_pattern(self.exclude),
            types: opt_texts(self.types),
            stages: opt_stages(self.stages),
            pass_filenames: self.pass_filenames,
            always_run: self.always_run,
            verbose: self.verbose,
        }
    }
}

impl HookOptionsView {
    /// Options with nothing set.
    pub open spec fn unset() -> HookOptionsView {
        HookOptionsView {
            description: None,
            files: None,
            exclude: None,
            types: None,
            stages: None,
            pass_filenames: None,
            always_run: None,
            verbose: None,
        }
    }
}

impl HookOptions {
    /// Options with nothing set.
    pub fn unset() -> (r: HookOptions)
        ensures
            r@ == HookOptionsView::unset(),
    {
        HookOptions {
            description: None,
            files: None,
            exclude: None,
            types: None,
            stages: None,
            pass_filenames: None,
            always_run: None,
            verbose: None,
        }
    }
}

impl Default for HookOptions {
    fn default() -> (r: HookOptions)
        ensures
            r@ == HookOptionsView::unset(),
    {
        HookOptions::unset()
    }
}

/// A hook that runs inside the program itself.
#[derive(Clone, Debug, PartialEq, Eq)]
pub struct BuiltinHook {
    pub id: String,
    pub name: String,
    pub entry: String,
    pub priority: Option<u32>,
    pub options: HookOptions,
}

/// The mathematical value of a [`BuiltinHook`].
pub struct BuiltinHookView {
    pub id: Seq<char>,
    pub name: Seq<char>,
    pub entry: Seq<char>,
    pub priority: Option<u32>,
    pub options: HookOptionsView,
}

impl View for BuiltinHook {
    type V = BuiltinHookView;

    open spec fn view(&self) -> BuiltinHookView {
        BuiltinHookView {
            id: self.id@,
            name: self.name@,
            entry: self.entry@,
            priority: self.priority,
            options: self.options@,
        }
    }
}

/// A hook that checks the configuration itself.
#[derive(Clone, Debug, PartialEq, Eq)]
pub struct MetaHook {
    pub id: String,
    pub name: String,
    pub priority: Option<u32>,
    pub options: HookOptions,
}

/// The mathematical value of a [`MetaHook`].
pub struct MetaHookView {
    pub id: Seq<char>,
    pub name: Seq<char>,
    pub priority: Option<u32>,
    pub options: HookOptionsView,
}

impl View for MetaHook {
    type V = MetaHookView;

    open spec fn view(&self) -> MetaHookView {
        MetaHookView {
            id: self.id@,
            name: self.name@,
            priority: self.priority,
            options: self.options@,
        }
    }
}

/// A hook as a repository's manifest declares it.
#[derive(Clone, Debug, PartialEq, Eq)]
pub struct ManifestHook {
    pub id: String,
    pub name: String,
    pub entry: String,
    pub language: Language,
    pub options: HookOptions,
}

/// The mathematical value of a [`ManifestHook`].
pub struct ManifestHookView {
    pub id: Seq<char>,
    pub name: Seq<char>,
    pub entry: Seq<char>,
    pub language: Language,
    pub options: HookOptionsView,
}

impl View for ManifestHook {
    type V = ManifestHookView;

    open spec fn view(&self) -> ManifestHookView {
        ManifestHookView {
            id: self.id@,
            name: self.name@,
            entry: self.entry@,
            language: self.language,
            options: self.options@,
        }
    }
}

/// The hooks that a repository offers.
#[derive(Clone, Debug, PartialEq, Eq)]
pub struct Manifest {
    pub hooks: Vec<ManifestHook>,
}

/// The views of a sequence of manifest hooks.
pub open spec fn manifest_views(hooks: Seq<ManifestHook>) -> Seq<ManifestHookView> {
    hooks.map_values(|h: ManifestHook| h@)
}

impl View for Manifest {
    type V = Seq<ManifestHookView>;

    open spec fn view(&self) -> Seq<ManifestHookView> {
        manifest_views(self.hooks@)
    }
}

} // verus!
