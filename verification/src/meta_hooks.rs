//! Meta hooks: hooks that check the configuration itself rather than the
//! files of the repository.
//!
//! Like the built-in hooks, meta hooks run from the workspace root while the
//! file names they are handed are relative to the project root: the checks
//! below match `files` and `exclude` patterns against project-relative paths.

use vstd::prelude::*;
use vstd::utf8::{decode_utf8, encode_utf8, encode_utf8_decode_utf8};
use crate::config::{
    config_filenames, config_filenames_spec, opt_pattern, HookOptions, HookOptionsView, Language,
    MetaHook, MetaHookView,
};
use crate::pattern::{FilePattern, FilePatternView};
use crate::text::{join, joined, same_text, utf8_bytes, views};

verus! {

/// The meta hooks, in the order they are listed.
#[derive(Clone, Copy, Debug, PartialEq, Eq, Structural)]
pub enum MetaHooks {
    CheckHooksApply,
    CheckUselessExcludes,
    Identity,
}

/// Every meta hook, in declaration order.
pub open spec fn all_meta_hooks() -> Seq<MetaHooks> {
    seq![MetaHooks::CheckHooksApply, MetaHooks::CheckUselessExcludes, MetaHooks::Identity]
}

impl MetaHooks {
    /// The kebab-case name of the hook.
    pub open spec fn name(self) -> Seq<char> {
        match self {
            MetaHooks::CheckHooksApply => "check-hooks-apply"@,
            MetaHooks::CheckUselessExcludes => "check-useless-excludes"@,
            MetaHooks::Identity => "identity"@,
        }
    }

    /// The hook whose name is `s`, if there is one.
    pub open spec fn named(s: Seq<char>) -> Option<MetaHooks> {
        if s == MetaHooks::CheckHooksApply.name() {
            Some(MetaHooks::CheckHooksApply)
        } else if s == MetaHooks::CheckUselessExcludes.name() {
            Some(MetaHooks::CheckUselessExcludes)
        } else if s == MetaHooks::Identity.name() {
            Some(MetaHooks::Identity)
        } else {
            None
        }
    }

    /// The kebab-case name of the hook.
    pub fn as_str(&self) -> (r: &'static str)
        ensures
            r@ == self.name(),
    {
        match self {
            MetaHooks::CheckHooksApply => "check-hooks-apply",
            MetaHooks::CheckUselessExcludes => "check-useless-excludes",
            MetaHooks::Identity => "identity",
        }
    }

    /// The hook with the given kebab-case name.
    pub fn from_str(s: &str) -> (r: Option<MetaHooks>)
        ensures
            r == MetaHooks::named(s@),
    {
        if same_text(s, "check-hooks-apply") {
            Some(MetaHooks::CheckHooksApply)
        } else if same_text(s, "check-useless-excludes") {
            Some(MetaHooks::CheckUselessExcludes)
        } else if same_text(s, "identity") {
            Some(MetaHooks::Identity)
        } else {
            None
        }
    }

    /// The names of all meta hooks, in declaration order.
    pub fn all_hooks() -> (r: Vec<String>)
        ensures
            views(r@) == all_meta_hooks().map_values(|h: MetaHooks| h.name()),
    {
        let r = vec![
            MetaHooks::CheckHooksApply.as_str().to_owned(),
            MetaHooks::CheckUselessExcludes.as_str().to_owned(),
            MetaHooks::Identity.as_str().to_owned(),
        ];
        assert(views(r@) == all_meta_hooks().map_values(|h: MetaHooks| h.name()));
        r
    }
}

/// Two different meta hooks have different names.
pub proof fn lemma_meta_names_distinct(a: MetaHooks, b: MetaHooks)
    ensures
        a != b ==> a.name() != b.name(),
{
    reveal_strlit("check-hooks-apply");
    reveal_strlit("check-useless-excludes");
    reveal_strlit("identity");
    assert(a != b ==> a.name().len() != b.name().len());
}

/// Reading a meta hook's name gives the hook back.
pub proof fn lemma_meta_name_round_trip(h: MetaHooks)
    ensures
        MetaHooks::named(h.name()) == Some(h),
{
    lemma_meta_names_distinct(h, MetaHooks::CheckHooksApply);
    lemma_meta_names_distinct(h, MetaHooks::CheckUselessExcludes);
    lemma_meta_names_distinct(h, MetaHooks::Identity);
}

/// The list of all meta hooks names each hook exactly once.
pub proof fn lemma_all_meta_hooks_listed(h: MetaHooks)
    ensures
        all_meta_hooks().contains(h),
        forall|i: int, j: int|
            0 <= i < j < all_meta_hooks().len() ==> #[trigger] all_meta_hooks()[i]
                != #[trigger] all_meta_hooks()[j],
{
    let all = all_meta_hooks();
    match h {
        MetaHooks::CheckHooksApply => assert(all[0] == h),
        MetaHooks::CheckUselessExcludes => assert(all[1] == h),
        MetaHooks::Identity => assert(all[2] == h),
    }
}

/// The pattern that selects the configuration files.
pub open spec fn config_files_pattern() -> FilePatternView {
    FilePatternView::Glob(config_filenames_spec())
}

/// The definition of each meta hook.
pub open spec fn meta_definition(h: MetaHooks) -> MetaHookView {
    match h {
        MetaHooks::CheckHooksApply => MetaHookView {
            id: "check-hooks-apply"@,
            name: "Check hooks apply"@,
            priority: None,
            options: HookOptionsView { files: Some(config_files_pattern()), ..HookOptionsView::unset() },
        },
        MetaHooks::CheckUselessExcludes => MetaHookView {
            id: "check-useless-excludes"@,
            name: "Check useless excludes"@,
            priority: None,
            options: HookOptionsView { files: Some(config_files_pattern()), ..HookOptionsView::unset() },
        },
        MetaHooks::Identity => MetaHookView {
            id: "identity"@,
            name: "identity"@,
            priority: None,
            options: HookOptionsView { verbose: Some(true), ..HookOptionsView::unset() },
        },
    }
}

/// A meta hook's definition carries the hook's name as its id.
pub proof fn lemma_meta_definition_id(h: MetaHooks)
    ensures
        meta_definition(h).id == h.name(),
{
}

fn config_files_glob() -> (r: FilePattern)
    ensures
        r@ == config_files_pattern(),
{
    FilePattern::Glob(config_filenames())
}

impl MetaHook {
    /// The definition of the meta hook with the given id; `Err` where no meta
    /// hook has that id.
    pub fn from_id(id: &str) -> (r: Result<MetaHook, ()>)
        ensures
            match MetaHooks::named(id@) {
                Some(h) => r matches Ok(m) && m@ == meta_definition(h),
                None => r is Err,
            },
    {
        let hook_id = match MetaHooks::from_str(id) {
            Some(h) => h,
            None => return Err(()),
        };
        let hook = match hook_id {
            MetaHooks::CheckHooksApply => MetaHook {
                id: "check-hooks-apply".to_owned(),
                name: "Check hooks apply".to_owned(),
                priority: None,
                options: HookOptions { files: Some(config_files_glob()), ..HookOptions::unset() },
            },
            MetaHooks::CheckUselessExcludes => MetaHook {
                id: "check-useless-excludes".to_owned(),
                name: "Check useless excludes".to_owned(),
                priority: None,
                options: HookOptions { files: Some(config_files_glob()), ..HookOptions::unset() },
            },
            MetaHooks::Identity => MetaHook {
                id: "identity".to_owned(),
                name: "identity".to_owned(),
                priority: None,
                options: HookOptions { verbose: Some(true), ..HookOptions::unset() },
            },
        };
        Ok(hook)
    }
}

/// The view of an optional pattern reference.
pub open spec fn opt_view(p: Option<&FilePattern>) -> Option<FilePatternView> {
    match p {
        Some(q) => Some(q@),
        None => None,
    }
}

/// Whether `f` passes the `files_pattern` and is caught by `exclude`.
pub open spec fn caught(f: Seq<char>, files_pattern: Option<FilePatternView>, exclude: Option<FilePatternView>) -> bool {
    &&& (files_pattern matches Some(p) ==> p.matches_path(f))
    &&& (exclude matches Some(p) ==> p.matches_path(f))
}

/// Whether the `exclude` pattern matches any of the files that the
/// `files_pattern` selects; with no `exclude` pattern at all the answer is
/// `true`.
pub open spec fn excludes_any_spec(
    files: Seq<Seq<char>>,
    files_pattern: Option<FilePatternView>,
    exclude: Option<FilePatternView>,
) -> bool {
    exclude is None || exists|i: int| 0 <= i < files.len() && #[trigger] caught(files[i], files_pattern, exclude)
}

/// Whether an optional pattern answers the same on every platform for `f`.
pub open spec fn portable(p: Option<FilePatternView>, f: Seq<char>) -> bool {
    match p {
        Some(q) => q.portable_for(f),
        None => true,
    }
}

/// Whether both patterns answer the same on every platform for each file.
pub open spec fn all_portable(
    files: Seq<Seq<char>>,
    files_pattern: Option<FilePatternView>,
    exclude: Option<FilePatternView>,
) -> bool {
    forall|i: int|
        0 <= i < files.len() ==> portable(files_pattern, #[trigger] files[i]) && portable(exclude, files[i])
}

/// Returns true if the exclude pattern matches any files matching the
/// `files_pattern`, and true where there is no exclude pattern. The answer
/// is stated where the patterns answer the same on every platform (see
/// `FilePatternView::portable_for`).
pub fn excludes_any(
    files: &[String],
    files_pattern: Option<&FilePattern>,
    exclude: Option<&FilePattern>,
) -> (r: bool)
    ensures
        exclude is None ==> r,
        exclude is Some && files@.len() == 0 ==> !r,
        all_portable(views(files@), opt_view(files_pattern), opt_view(exclude)) ==> r
            == excludes_any_spec(views(files@), opt_view(files_pattern), opt_view(exclude)),
{
    if exclude.is_none() {
        return true;
    }
    let ghost fs = views(files@);
    let ghost ok = all_portable(fs, opt_view(files_pattern), opt_view(exclude));
    let mut i: usize = 0;
    while i < files.len()
        invariant
            0 <= i <= files@.len(),
            fs == views(files@),
            ok == all_portable(fs, opt_view(files_pattern), opt_view(exclude)),
            exclude is Some,
            ok ==> forall|k: int|
                0 <= k < i ==> !#[trigger] caught(fs[k], opt_view(files_pattern), opt_view(exclude)),
        decreases files@.len() - i,
    {
        let f = files[i].as_str();
        let mut hit = true;
        if let Some(pattern) = files_pattern {
            if !pattern.is_match(f) {
                hit = false;
            }
        }
        if let Some(pattern) = exclude {
            if !pattern.is_match(f) {
                hit = false;
            }
        }
        assert(ok ==> hit == caught(fs[i as int], opt_view(files_pattern), opt_view(exclude)));
        if hit {
            return true;
        }
        i = i + 1;
    }
    false
}

/// Whether an exclude pattern catches a file depends only on which files
/// there are: where every file of `files1` is also among `files2`, a pattern
/// that catches one of `files1` catches one of `files2`. Neither order nor
/// repetition matters.
pub proof fn lemma_excludes_any_monotone(
    files1: Seq<Seq<char>>,
    files2: Seq<Seq<char>>,
    files_pattern: Option<FilePatternView>,
    exclude: Option<FilePatternView>,
)
    requires
        forall|i: int| 0 <= i < files1.len() ==> files2.contains(#[trigger] files1[i]),
    ensures
        excludes_any_spec(files1, files_pattern, exclude) ==> excludes_any_spec(
            files2,
            files_pattern,
            exclude,
        ),
{
    if exclude is Some && excludes_any_spec(files1, files_pattern, exclude) {
        let i = choose|i: int|
            0 <= i < files1.len() && #[trigger] caught(files1[i], files_pattern, exclude);
        assert(files2.contains(files1[i]));
        let j = choose|j: int| 0 <= j < files2.len() && files2[j] == files1[i];
        assert(caught(files2[j], files_pattern, exclude));
    }
}

/// Prints all arguments passed to the hook: exit code 0, and the file names,
/// one per line, as UTF-8.
pub fn identity(filenames: &[String]) -> (r: (i32, Vec<u8>))
    ensures
        r.0 == 0,
        r.1@ == encode_utf8(joined(views(filenames@), seq!['\n'])),
{
    let text = join(filenames, "\n");
    proof {
        reveal_strlit("\n");
        assert("\n"@ == seq!['\n']);
    }
    (0, utf8_bytes(&text))
}


/// What the check that hooks apply learned of one configured hook.
#[derive(Clone, Debug, PartialEq, Eq)]
pub struct HookApplication {
    pub id: String,
    pub always_run: bool,
    pub language: Language,
    /// Whether the hook's file filter selects any file of the project.
    pub has_files: bool,
}

/// Whether the hook is reported as applying to no file: it is not run
/// always, is not of the `fail` language, and selects no file.
pub open spec fn does_not_apply(h: HookApplication) -> bool {
    !h.always_run && h.language != Language::Fail && !h.has_files
}

/// The report line of a hook that applies to no file.
pub open spec fn not_applied_line(id: Seq<char>) -> Seq<char> {
    id + " does not apply to this repository\n"@
}

/// The report of the check that hooks apply: one line per hook that applies
/// to no file, in order.
pub open spec fn hooks_apply_text(hooks: Seq<HookApplication>) -> Seq<char>
    decreases hooks.len(),
{
    if hooks.len() == 0 {
        Seq::empty()
    } else if does_not_apply(hooks.last()) {
        hooks_apply_text(hooks.drop_last()) + not_applied_line(hooks.last().id@)
    } else {
        hooks_apply_text(hooks.drop_last())
    }
}

/// Ensures that the configured hooks apply to at least one file: exit code 1
/// and one line per hook that applies to none, exit code 0 and no output
/// where every hook applies.
pub fn hooks_apply_report(hooks: &[HookApplication]) -> (r: (i32, Vec<u8>))
    ensures
        r.0 == (if exists|i: int| 0 <= i < hooks@.len() && #[trigger] does_not_apply(hooks@[i]) {
            1i32
        } else {
            0i32
        }),
        r.1@ == encode_utf8(hooks_apply_text(hooks@)),
{
    let mut code: i32 = 0;
    let mut out = String::new();
    let mut i: usize = 0;
    while i < hooks.len()
        invariant
            0 <= i <= hooks@.len(),
            out@ == hooks_apply_text(hooks@.take(i as int)),
            code == (if exists|k: int| 0 <= k < i && #[trigger] does_not_apply(hooks@[k]) {
                1i32
            } else {
                0i32
            }),
        decreases hooks@.len() - i,
    {
        let h = &hooks[i];
        proof {
            assert(hooks@.take(i + 1).drop_last() == hooks@.take(i as int));
        }
        if !h.always_run && h.language != Language::Fail && !h.has_files {
            code = 1;
            out.append(h.id.as_str());
            out.append(" does not apply to this repository\n");
        }
        i = i + 1;
    }
    proof {
        assert(hooks@.take(hooks@.len() as int) == hooks@);
    }
    (code, utf8_bytes(&out))
}

/// The check that hooks apply exits with 1 exactly when it prints a line.
pub proof fn lemma_hooks_apply_code_matches_output(hooks: Seq<HookApplication>)
    ensures
        (exists|i: int| 0 <= i < hooks.len() && #[trigger] does_not_apply(hooks[i]))
            <==> hooks_apply_text(hooks).len() > 0,
    decreases hooks.len(),
{
    reveal_strlit(" does not apply to this repository\n");
    if hooks.len() > 0 {
        let prev = hooks.drop_last();
        lemma_hooks_apply_code_matches_output(prev);
        assert(hooks.last() == hooks[hooks.len() - 1]);
        if exists|i: int| 0 <= i < prev.len() && #[trigger] does_not_apply(prev[i]) {
            let i = choose|i: int| 0 <= i < prev.len() && #[trigger] does_not_apply(prev[i]);
            assert(does_not_apply(hooks[i]));
        }
        if exists|i: int| 0 <= i < hooks.len() && #[trigger] does_not_apply(hooks[i]) {
            let i = choose|i: int| 0 <= i < hooks.len() && #[trigger] does_not_apply(hooks[i]);
            if i < hooks.len() - 1 {
                assert(does_not_apply(prev[i]));
            }
        }
    }
}

/// How an optional pattern is shown in messages: nothing when it is unset.
pub open spec fn shown_or_empty(p: Option<FilePatternView>) -> Seq<char> {
    match p {
        Some(q) => q.shown(),
        None => Seq::empty(),
    }
}

/// What the check for useless excludes learned of one configured hook.
#[derive(Clone, Debug, PartialEq, Eq)]
pub struct HookExcludes {
    pub id: String,
    pub files: Option<FilePattern>,
    pub exclude: Option<FilePattern>,
    /// The project files of the hook's types, relative to the project root.
    pub selected_files: Vec<String>,
}

/// One configuration file for the check for useless excludes.
#[derive(Clone, Debug, PartialEq, Eq)]
pub struct ConfigExcludes {
    /// The global `exclude` pattern.
    pub exclude: Option<FilePattern>,
    /// The hooks of all repositories of the configuration, in order.
    pub hooks: Vec<HookExcludes>,
}

/// Whether the hook's `exclude` pattern matches none of its selected files.
pub open spec fn hook_exclude_useless(h: HookExcludes) -> bool {
    !excludes_any_spec(views(h.selected_files@), opt_pattern(h.files), opt_pattern(h.exclude))
}

/// Whether the global `exclude` pattern matches none of the project files.
pub open spec fn global_exclude_useless(files: Seq<Seq<char>>, c: ConfigExcludes) -> bool {
    !excludes_any_spec(files, None, opt_pattern(c.exclude))
}

/// The report line of a hook whose `exclude` pattern matches no file.
pub open spec fn hook_exclude_line(h: HookExcludes) -> Seq<char> {
    "The exclude pattern `"@ + shown_or_empty(opt_pattern(h.exclude)) + "` for `"@ + h.id@
        + "` does not match any files\n"@
}

/// The report line of a global `exclude` pattern that matches no file.
pub open spec fn global_exclude_line(c: ConfigExcludes) -> Seq<char> {
    "The global exclude pattern `"@ + shown_or_empty(opt_pattern(c.exclude))
        + "` does not match any files\n"@
}

/// The report lines of the hooks, in order.
pub open spec fn hooks_excludes_text(hooks: Seq<HookExcludes>) -> Seq<char>
    decreases hooks.len(),
{
    if hooks.len() == 0 {
        Seq::empty()
    } else if hook_exclude_useless(hooks.last()) {
        hooks_excludes_text(hooks.drop_last()) + hook_exclude_line(hooks.last())
    } else {
        hooks_excludes_text(hooks.drop_last())
    }
}

/// The report of one configuration: its global `exclude` line, if any, then
/// the lines of its hooks.
pub open spec fn config_excludes_text(files: Seq<Seq<char>>, c: ConfigExcludes) -> Seq<char> {
    (if global_exclude_useless(files, c) {
        global_exclude_line(c)
    } else {
        Seq::empty()
    }) + hooks_excludes_text(c.hooks@)
}

/// The report of all configurations, in order.
pub open spec fn useless_excludes_text(files: Seq<Seq<char>>, configs: Seq<ConfigExcludes>) -> Seq<char>
    decreases configs.len(),
{
    if configs.len() == 0 {
        Seq::empty()
    } else {
        useless_excludes_text(files, configs.drop_last()) + config_excludes_text(files, configs.last())
    }
}

/// Whether the hook's patterns answer the same on every platform for each
/// of its selected files.
pub open spec fn hook_portable(h: HookExcludes) -> bool {
    all_portable(views(h.selected_files@), opt_pattern(h.files), opt_pattern(h.exclude))
}

/// Whether the patterns of all hooks answer the same on every platform.
pub open spec fn hooks_portable(hooks: Seq<HookExcludes>) -> bool {
    forall|j: int| 0 <= j < hooks.len() ==> hook_portable(#[trigger] hooks[j])
}

/// Whether every pattern of the configurations answers the same on every
/// platform for the files it is matched against.
pub open spec fn configs_portable(files: Seq<Seq<char>>, configs: Seq<ConfigExcludes>) -> bool {
    forall|i: int|
        0 <= i < configs.len() ==> all_portable(files, None, opt_pattern(#[trigger] configs[i].exclude))
            && hooks_portable(configs[i].hooks@)
}

/// Whether some `exclude` pattern of the configuration matches no file.
pub open spec fn config_has_useless_exclude(files: Seq<Seq<char>>, c: ConfigExcludes) -> bool {
    global_exclude_useless(files, c) || exists|j: int|
        0 <= j < c.hooks@.len() && #[trigger] hook_exclude_useless(c.hooks@[j])
}

/// The report line of each hook, in order.
pub open spec fn hook_lines(hooks: Seq<HookExcludes>) -> Seq<Seq<char>> {
    hooks.map_values(|h: HookExcludes| hook_exclude_line(h))
}

/// The lines that the report of a configuration may hold: its global line,
/// then one line per hook.
pub open spec fn config_lines(c: ConfigExcludes) -> Seq<Seq<char>> {
    seq![global_exclude_line(c)] + hook_lines(c.hooks@)
}

/// The lines that the report of the configurations may hold, in order.
pub open spec fn report_lines(configs: Seq<ConfigExcludes>) -> Seq<Seq<char>>
    decreases configs.len(),
{
    if configs.len() == 0 {
        Seq::empty()
    } else {
        report_lines(configs.drop_last()) + config_lines(configs.last())
    }
}

/// The lines that `pick` selects, concatenated in order.
pub open spec fn picked_text(lines: Seq<Seq<char>>, pick: Seq<bool>) -> Seq<char>
    decreases lines.len(),
{
    if lines.len() == 0 {
        Seq::empty()
    } else {
        picked_text(lines.drop_last(), pick.drop_last()) + (if pick.last() {
            lines.last()
        } else {
            Seq::empty()
        })
    }
}

/// Selecting one more line adds it at the end.
proof fn lemma_picked_push(lines: Seq<Seq<char>>, pick: Seq<bool>, line: Seq<char>, b: bool)
    ensures
        picked_text(lines.push(line), pick.push(b)) == picked_text(lines, pick) + (if b {
            line
        } else {
            Seq::empty()
        }),
{
    assert(lines.push(line).drop_last() == lines);
    assert(pick.push(b).drop_last() == pick);
}

/// Selecting from two runs of lines selects from each in turn.
proof fn lemma_picked_concat(a: Seq<Seq<char>>, p: Seq<bool>, b: Seq<Seq<char>>, q: Seq<bool>)
    requires
        a.len() == p.len(),
        b.len() == q.len(),
    ensures
        picked_text(a + b, p + q) == picked_text(a, p) + picked_text(b, q),
    decreases b.len(),
{
    if b.len() == 0 {
        assert(a + b == a);
        assert(p + q == p);
    } else {
        lemma_picked_concat(a, p, b.drop_last(), q.drop_last());
        assert((a + b).drop_last() == a + b.drop_last());
        assert((p + q).drop_last() == p + q.drop_last());
    }
}

fn hooks_excludes_report(hooks: &Vec<HookExcludes>, out: &mut String) -> (useless: bool)
    ensures
        final(out)@.len() >= old(out)@.len(),
        useless <==> final(out)@.len() > old(out)@.len(),
        exists|pick: Seq<bool>|
            pick.len() == hooks@.len() && final(out)@ == old(out)@ + #[trigger] picked_text(
                hook_lines(hooks@),
                pick,
            ),
        hooks_portable(hooks@) ==> final(out)@ == old(out)@ + hooks_excludes_text(hooks@),
        hooks_portable(hooks@) ==> useless == exists|j: int|
            0 <= j < hooks@.len() && #[trigger] hook_exclude_useless(hooks@[j]),
{
    let mut useless = false;
    let mut i: usize = 0;
    let ghost start = out@;
    let ghost ok = hooks_portable(hooks@);
    let ghost mut pick = Seq::<bool>::empty();
    while i < hooks.len()
        invariant
            0 <= i <= hooks@.len(),
            ok == hooks_portable(hooks@),
            out@.len() >= start.len(),
            useless <==> out@.len() > start.len(),
            pick.len() == i,
            out@ == start + picked_text(hook_lines(hooks@.take(i as int)), pick),
            ok ==> out@ == start + hooks_excludes_text(hooks@.take(i as int)),
            ok ==> useless == exists|j: int| 0 <= j < i && #[trigger] hook_exclude_useless(hooks@[j]),
        decreases hooks@.len() - i,
    {
        let h = &hooks[i];
        proof {
            assert(hooks@.take(i + 1).drop_last() == hooks@.take(i as int));
            assert(hook_lines(hooks@.take(i + 1)) == hook_lines(hooks@.take(i as int)).push(
                hook_exclude_line(*h),
            ));
        }
        let ghost before = out@;
        let files = h.files.as_ref();
        let exclude = h.exclude.as_ref();
        assert(opt_view(files) == opt_pattern(h.files) && opt_view(exclude) == opt_pattern(h.exclude));
        let caught_any = excludes_any(h.selected_files.as_slice(), files, exclude);
        assert(ok ==> hook_portable(hooks@[i as int]));
        assert(ok ==> caught_any == !hook_exclude_useless(hooks@[i as int]));
        if !caught_any {
            useless = true;
            let shown = match exclude {
                Some(p) => p.shown(),
                None => String::new(),
            };
            proof {
                reveal_strlit("The exclude pattern `");
            }
            out.append("The exclude pattern `");
            out.append(shown.as_str());
            out.append("` for `");
            out.append(h.id.as_str());
            out.append("` does not match any files\n");
            proof {
                assert(out@ == before + hook_exclude_line(*h));
            }
        }
        proof {
            lemma_picked_push(
                hook_lines(hooks@.take(i as int)),
                pick,
                hook_exclude_line(*h),
                !caught_any,
            );
            pick = pick.push(!caught_any);
        }
        i = i + 1;
    }
    proof {
        assert(hooks@.take(hooks@.len() as int) == hooks@);
    }
    useless
}

/// Ensures that `exclude` patterns apply to some file: for each configuration
/// in order, a line when its global `exclude` pattern matches none of the
/// project files, then a line for each hook whose `exclude` pattern matches
/// none of its selected files; exit code 1 where there is a line, else 0.
/// Whatever the patterns answer, the output is some of these lines in this
/// order, and the code is 1 exactly when there is output. Which lines are
/// printed is stated where the patterns answer the same on every platform
/// (see `FilePatternView::portable_for`).
pub fn useless_excludes_report(project_files: &[String], configs: &[ConfigExcludes]) -> (r: (
    i32,
    Vec<u8>,
))
    ensures
        r.0 == 0 || r.0 == 1,
        r.0 == 0 <==> r.1@.len() == 0,
        configs_portable(views(project_files@), configs@) ==> r.0 == (if exists|i: int|
            0 <= i < configs@.len() && #[trigger] config_has_useless_exclude(
                views(project_files@),
                configs@[i],
            ) {
            1i32
        } else {
            0i32
        }),
        exists|pick: Seq<bool>|
            pick.len() == report_lines(configs@).len() && r.1@ == encode_utf8(
                #[trigger] picked_text(report_lines(configs@), pick),
            ),
        configs_portable(views(project_files@), configs@) ==> r.1@ == encode_utf8(
            useless_excludes_text(views(project_files@), configs@),
        ),
{
    let ghost files = views(project_files@);
    let ghost ok = configs_portable(files, configs@);
    let mut code: i32 = 0;
    let mut out = String::new();
    let mut i: usize = 0;
    let ghost mut pick = Seq::<bool>::empty();
    while i < configs.len()
        invariant
            0 <= i <= configs@.len(),
            files == views(project_files@),
            pick.len() == report_lines(configs@.take(i as int)).len(),
            out@ == picked_text(report_lines(configs@.take(i as int)), pick),
            ok == configs_portable(files, configs@),
            code == 0 || code == 1,
            code == 0 <==> out@.len() == 0,
            ok ==> out@ == useless_excludes_text(files, configs@.take(i as int)),
            ok ==> code == (if exists|k: int|
                0 <= k < i && #[trigger] config_has_useless_exclude(files, configs@[k]) {
                1i32
            } else {
                0i32
            }),
        decreases configs@.len() - i,
    {
        let c = &configs[i];
        proof {
            assert(configs@.take(i + 1).drop_last() == configs@.take(i as int));
        }
        let ghost before = out@;
        let exclude = c.exclude.as_ref();
        assert(opt_view(exclude) == opt_pattern(c.exclude));
        let global_useless = !excludes_any(project_files, None, exclude);
        assert(ok ==> global_useless == global_exclude_useless(files, configs@[i as int]));
        if global_useless {
            let shown = match exclude {
                Some(p) => p.shown(),
                None => String::new(),
            };
            proof {
                reveal_strlit("The global exclude pattern `");
            }
            out.append("The global exclude pattern `");
            out.append(shown.as_str());
            out.append("` does not match any files\n");
        }
        let ghost middle = out@;
        assert(ok ==> middle == before + (if global_exclude_useless(files, *c) {
            global_exclude_line(*c)
        } else {
            Seq::empty()
        }));
        assert(middle == before + (if global_useless {
            global_exclude_line(*c)
        } else {
            Seq::empty()
        }));
        let hooks_useless = hooks_excludes_report(&c.hooks, &mut out);
        proof {
            let hp = choose|hp: Seq<bool>|
                hp.len() == c.hooks@.len() && out@ == middle + #[trigger] picked_text(
                    hook_lines(c.hooks@),
                    hp,
                );
            let gl = global_exclude_line(*c);
            let cp = seq![global_useless] + hp;
            assert(seq![gl] == Seq::<Seq<char>>::empty().push(gl));
            assert(seq![global_useless] == Seq::<bool>::empty().push(global_useless));
            lemma_picked_push(Seq::empty(), Seq::empty(), gl, global_useless);
            lemma_picked_concat(seq![gl], seq![global_useless], hook_lines(c.hooks@), hp);
            assert(picked_text(config_lines(*c), cp) == middle.subrange(
                before.len() as int,
                middle.len() as int,
            ) + picked_text(hook_lines(c.hooks@), hp));
            assert(configs@.take(i + 1).drop_last() == configs@.take(i as int));
            assert(report_lines(configs@.take(i + 1)) == report_lines(configs@.take(i as int))
                + config_lines(*c));
            lemma_picked_concat(report_lines(configs@.take(i as int)), pick, config_lines(*c), cp);
            pick = pick + cp;
        }
        assert(ok ==> config_has_useless_exclude(files, configs@[i as int]) == (global_useless
            || hooks_useless));
        if global_useless || hooks_useless {
            code = 1;
        }
        proof {
            assert(ok ==> out@ == before + config_excludes_text(files, *c));
        }
        i = i + 1;
    }
    proof {
        assert(configs@.take(configs@.len() as int) == configs@);
        lemma_encode_utf8_empty(out@);
    }
    (code, utf8_bytes(&out))
}


/// Whether `part` is a contiguous run of the characters of `s`.
pub open spec fn contiguous_part(part: Seq<char>, s: Seq<char>) -> bool {
    exists|i: int, j: int| 0 <= i <= j <= s.len() && part == s.subrange(i, j)
}

/// Whether a relative path reads the same on every platform and has one
/// spelling of its components: not empty, no backslash and no `:` (which
/// Windows reads as a separator or a drive prefix), no `/` at either end, no
/// two `/` in a row, and no `.` component.
pub open spec fn plain_path(s: Seq<char>) -> bool {
    &&& s.len() > 0
    &&& !s.contains('\\')
    &&& !s.contains(':')
    &&& s[0] != '/'
    &&& s.last() != '/'
    &&& forall|i: int| 0 <= i < s.len() - 1 ==> !(#[trigger] s[i] == '/' && s[i + 1] == '/')
    &&& forall|i: int|
        0 <= i < s.len() && #[trigger] s[i] == '.' ==> !((i == 0 || s[i - 1] == '/') && (i == s.len()
            - 1 || s[i + 1] == '/'))
}

/// What is left of `path` once the leading components `base` are taken off:
/// nothing when the two are equal, the part after `base/` when `path`
/// starts with it, and no result otherwise.
pub open spec fn stripped(path: Seq<char>, base: Seq<char>) -> Option<Seq<char>> {
    if path == base {
        Some(Seq::empty())
    } else if base.len() < path.len() && path.subrange(0, base.len() as int) == base
        && path[base.len() as int] == '/' {
        Some(path.subrange(base.len() as int + 1, path.len() as int))
    } else {
        None
    }
}

/// The view of an optional string.
pub open spec fn opt_string_view(o: Option<String>) -> Option<Seq<char>> {
    match o {
        Some(s) => Some(s@),
        None => None,
    }
}

/// Calls `std::path::Path::strip_prefix` on `path` with `base` and turns the
/// remaining path back into a string (`to_string_lossy`, which gives valid
/// UTF-8 back unchanged). The result of `strip_prefix` borrows from `path`,
/// so a kept path is a contiguous part of `path`. Where both are plain paths
/// (see `plain_path`), `strip_prefix` compares their components, which are
/// then the runs between `/` on every platform, and gives the rest of `path`
/// without its leading `/`: the contract states that result exactly. For
/// other paths (backslashes, drive prefixes, repeated separators, `.`
/// components) only the contiguity is claimed.
#[verifier::external_body]
fn strip_path_prefix(path: &str, base: &str) -> (r: Option<String>)
    ensures
        r matches Some(s) ==> contiguous_part(s@, path@),
        plain_path(path@) && plain_path(base@) ==> opt_string_view(r) == stripped(path@, base@),
{
    std::path::Path::new(path).strip_prefix(base).ok().map(|p| p.to_string_lossy().into_owned())
}

/// The views of optional strings.
pub open spec fn opt_views(rs: Seq<Option<String>>) -> Seq<Option<Seq<char>>> {
    rs.map_values(|o: Option<String>| opt_string_view(o))
}

/// Whether every file is a plain path.
pub open spec fn plain_files(files: Seq<String>) -> bool {
    forall|i: int| 0 <= i < files.len() ==> plain_path(#[trigger] files[i]@)
}

/// What is left of each file once the leading components `base` are taken
/// off.
pub open spec fn stripped_all(files: Seq<String>, base: Seq<char>) -> Seq<Option<Seq<char>>> {
    files.map_values(|f: String| stripped(f@, base))
}

/// The present values, in order.
pub open spec fn kept(rs: Seq<Option<Seq<char>>>) -> Seq<Seq<char>>
    decreases rs.len(),
{
    if rs.len() == 0 {
        Seq::empty()
    } else {
        match rs.last() {
            Some(p) => kept(rs.drop_last()).push(p),
            None => kept(rs.drop_last()),
        }
    }
}

/// Keeps the paths that stripping gave, in order, and drops the files for
/// which it gave none.
pub fn keep_stripped(results: Vec<Option<String>>) -> (r: Vec<String>)
    ensures
        views(r@) == kept(opt_views(results@)),
{
    let mut r: Vec<String> = Vec::new();
    let mut i: usize = 0;
    while i < results.len()
        invariant
            0 <= i <= results@.len(),
            views(r@) == kept(opt_views(results@.take(i as int))),
        decreases results@.len() - i,
    {
        proof {
            assert(opt_views(results@.take(i + 1)).drop_last() == opt_views(results@.take(i as int)));
        }
        match &results[i] {
            Some(p) => {
                r.push(p.clone());
            },
            None => {},
        }
        i = i + 1;
    }
    proof {
        assert(results@.take(results@.len() as int) == results@);
    }
    r
}

/// The workspace-relative `files` made relative to the project at
/// `relative_path`: unchanged for the workspace's own project (empty
/// `relative_path`); otherwise each file is handed with `relative_path` to
/// `Path::strip_prefix`, and the paths it gives are kept, in order, each a
/// contiguous part of its file, while the files it refuses are dropped.
/// Where the project path and the files are plain paths, a file is kept
/// exactly when it is the project path or lies under it, as the rest of the
/// path after the project path and its `/`.
pub fn project_relative_files(files: &[String], relative_path: &str) -> (r: Vec<String>)
    ensures
        plain_path(relative_path@) && plain_files(files@) ==> views(r@) == kept(
            stripped_all(files@, relative_path@),
        ),
        relative_path@.len() == 0 ==> views(r@) == views(files@),
        relative_path@.len() != 0 ==> exists|rs: Seq<Option<Seq<char>>>|
            #![trigger kept(rs)]
            rs.len() == files@.len() && (forall|i: int|
                0 <= i < rs.len() ==> (#[trigger] rs[i] matches Some(p) ==> contiguous_part(
                    p,
                    files@[i]@,
                ))) && views(r@) == kept(rs),
{
    if relative_path.is_empty() {
        let mut r: Vec<String> = Vec::new();
        let mut i: usize = 0;
        while i < files.len()
            invariant
                0 <= i <= files@.len(),
                views(r@) == views(files@.take(i as int)),
            decreases files@.len() - i,
        {
            r.push(files[i].clone());
            proof {
                assert(views(files@.take(i + 1)) == views(files@.take(i as int)).push(files@[i as int]@));
            }
            i = i + 1;
        }
        proof {
            assert(files@.take(files@.len() as int) == files@);
        }
        return r;
    }
    let ghost plain = plain_path(relative_path@) && plain_files(files@);
    let mut results: Vec<Option<String>> = Vec::new();
    let mut i: usize = 0;
    while i < files.len()
        invariant
            0 <= i <= files@.len(),
            results@.len() == i,
            plain == (plain_path(relative_path@) && plain_files(files@)),
            plain ==> forall|k: int|
                0 <= k < i ==> #[trigger] opt_views(results@)[k] == stripped(files@[k]@, relative_path@),
            forall|k: int|
                0 <= k < i ==> (#[trigger] opt_views(results@)[k] matches Some(p) ==> contiguous_part(
                    p,
                    files@[k]@,
                )),
        decreases files@.len() - i,
    {
        let cut = strip_path_prefix(files[i].as_str(), relative_path);
        let ghost prev = results@;
        results.push(cut);
        proof {
            assert forall|k: int| 0 <= k < i + 1 implies (#[trigger] opt_views(results@)[k] matches Some(p)
                ==> contiguous_part(p, files@[k]@)) by {
                if k < i {
                    assert(results@[k] == prev[k]);
                    assert(opt_views(prev)[k] == opt_views(results@)[k]);
                } else {
                    assert(results@[k] == cut);
                }
            }
            assert forall|k: int| plain && 0 <= k < i + 1 implies #[trigger] opt_views(results@)[k]
                == stripped(files@[k]@, relative_path@) by {
                if k < i {
                    assert(results@[k] == prev[k]);
                    assert(opt_views(prev)[k] == opt_views(results@)[k]);
                } else {
                    assert(plain_path(files@[k]@));
                    assert(results@[k] == cut);
                }
            }
        }
        i = i + 1;
    }
    let ghost rs = opt_views(results@);
    assert(plain ==> rs == stripped_all(files@, relative_path@));
    let r = keep_stripped(results);
    assert(rs.len() == files@.len());
    assert(forall|k: int| 0 <= k < rs.len() ==> (#[trigger] rs[k] matches Some(p) ==> contiguous_part(p, files@[k]@)));
    r
}

/// The lines of `s`: the runs of characters between line feeds.
pub open spec fn split_lines(s: Seq<char>) -> Seq<Seq<char>>
    decreases s.len(),
{
    if s.len() == 0 {
        seq![Seq::empty()]
    } else {
        let prev = split_lines(s.drop_last());
        if s.last() == '\n' {
            prev.push(Seq::empty())
        } else {
            prev.update(prev.len() - 1, prev.last().push(s.last()))
        }
    }
}

/// Whether `s` holds no line feed.
pub open spec fn single_line(s: Seq<char>) -> bool {
    !s.contains('\n')
}

proof fn lemma_split_single_line(b: Seq<char>)
    requires
        single_line(b),
    ensures
        split_lines(b) == seq![b],
    decreases b.len(),
{
    if b.len() > 0 {
        let init = b.drop_last();
        assert(single_line(init)) by {
            if init.contains('\n') {
                let k = choose|k: int| 0 <= k < init.len() && init[k] == '\n';
                assert(b[k] == '\n');
            }
        }
        lemma_split_single_line(init);
        assert(b.last() != '\n') by {
            assert(b[b.len() - 1] == b.last());
        }
        assert(init.push(b.last()) == b);
    } else {
        assert(b == Seq::<char>::empty());
    }
}

proof fn lemma_split_after_newline(a: Seq<char>, b: Seq<char>)
    requires
        single_line(b),
    ensures
        split_lines(a + seq!['\n'] + b) == split_lines(a).push(b),
    decreases b.len(),
{
    let s = a + seq!['\n'] + b;
    if b.len() == 0 {
        assert(s.drop_last() == a);
        assert(b == Seq::<char>::empty());
    } else {
        let init = b.drop_last();
        assert(single_line(init)) by {
            if init.contains('\n') {
                let k = choose|k: int| 0 <= k < init.len() && init[k] == '\n';
                assert(b[k] == '\n');
            }
        }
        lemma_split_after_newline(a, init);
        assert(s.drop_last() == a + seq!['\n'] + init);
        assert(s.last() == b.last());
        assert(b.last() != '\n') by {
            assert(b[b.len() - 1] == b.last());
        }
        assert(init.push(b.last()) == b);
        let prev = split_lines(a).push(init);
        assert(prev.update(prev.len() - 1, prev.last().push(s.last())) == split_lines(a).push(b));
    }
}

/// Splitting `identity`'s output at line feeds gives back the file names,
/// where there is at least one name and none holds a line feed.
pub proof fn lemma_identity_lines(names: Seq<Seq<char>>)
    requires
        names.len() >= 1,
        forall|i: int| 0 <= i < names.len() ==> single_line(#[trigger] names[i]),
    ensures
        split_lines(decode_utf8(encode_utf8(joined(names, seq!['\n'])))) == names,
    decreases names.len(),
{
    encode_utf8_decode_utf8(joined(names, seq!['\n']));
    if names.len() == 1 {
        lemma_split_single_line(names[0]);
        assert(seq![names[0]] == names);
    } else {
        let init = names.drop_last();
        assert forall|i: int| 0 <= i < init.len() implies single_line(#[trigger] init[i]) by {
            assert(init[i] == names[i]);
        }
        lemma_identity_lines(init);
        encode_utf8_decode_utf8(joined(init, seq!['\n']));
        assert(single_line(names.last())) by {
            assert(names[names.len() - 1] == names.last());
        }
        lemma_split_after_newline(joined(init, seq!['\n']), names.last());
        assert(init.push(names.last()) == names);
    }
}

/// Text is empty exactly when its UTF-8 encoding is.
pub proof fn lemma_encode_utf8_empty(s: Seq<char>)
    ensures
        encode_utf8(s).len() == 0 <==> s.len() == 0,
{
    if s.len() > 0 {
        assert(vstd::utf8::encode_scalar(s[0] as u32).len() >= 1);
    }
}

/// A hook's line is never empty, so the hooks' report is empty exactly when
/// no hook's `exclude` pattern is useless.
proof fn lemma_hooks_excludes_text_empty(hooks: Seq<HookExcludes>)
    ensures
        (exists|j: int| 0 <= j < hooks.len() && #[trigger] hook_exclude_useless(hooks[j]))
            <==> hooks_excludes_text(hooks).len() > 0,
    decreases hooks.len(),
{
    reveal_strlit("` does not match any files\n");
    if hooks.len() > 0 {
        let prev = hooks.drop_last();
        lemma_hooks_excludes_text_empty(prev);
        if exists|j: int| 0 <= j < prev.len() && #[trigger] hook_exclude_useless(prev[j]) {
            let j = choose|j: int| 0 <= j < prev.len() && #[trigger] hook_exclude_useless(prev[j]);
            assert(hook_exclude_useless(hooks[j]));
        }
        if exists|j: int| 0 <= j < hooks.len() && #[trigger] hook_exclude_useless(hooks[j]) {
            let j = choose|j: int| 0 <= j < hooks.len() && #[trigger] hook_exclude_useless(hooks[j]);
            if j < hooks.len() - 1 {
                assert(hook_exclude_useless(prev[j]));
            }
        }
    }
}

/// The check for useless excludes exits with 1 exactly when it prints a
/// line.
pub proof fn lemma_useless_excludes_code_matches_output(
    files: Seq<Seq<char>>,
    configs: Seq<ConfigExcludes>,
)
    ensures
        (exists|i: int| 0 <= i < configs.len() && #[trigger] config_has_useless_exclude(files, configs[i]))
            <==> useless_excludes_text(files, configs).len() > 0,
    decreases configs.len(),
{
    reveal_strlit("` does not match any files\n");
    if configs.len() > 0 {
        let prev = configs.drop_last();
        let c = configs.last();
        lemma_useless_excludes_code_matches_output(files, prev);
        lemma_hooks_excludes_text_empty(c.hooks@);
        assert(c == configs[configs.len() - 1]);
        assert(global_exclude_line(c).len() > 0);
        assert(config_has_useless_exclude(files, c) <==> config_excludes_text(files, c).len() > 0);
        if exists|i: int| 0 <= i < prev.len() && #[trigger] config_has_useless_exclude(files, prev[i]) {
            let i = choose|i: int| 0 <= i < prev.len() && #[trigger] config_has_useless_exclude(files, prev[i]);
            assert(config_has_useless_exclude(files, configs[i]));
        }
        if exists|i: int| 0 <= i < configs.len() && #[trigger] config_has_useless_exclude(files, configs[i]) {
            let i = choose|i: int| 0 <= i < configs.len() && #[trigger] config_has_useless_exclude(files, configs[i]);
            if i < configs.len() - 1 {
                assert(config_has_useless_exclude(files, prev[i]));
            }
        }
    }
}

/// Whether each hook's `exclude` pattern matches none of its selected files.
pub open spec fn hooks_useless(hooks: Seq<HookExcludes>) -> Seq<bool> {
    hooks.map_values(|h: HookExcludes| hook_exclude_useless(h))
}

/// For each line that the report of the configurations may hold, whether its
/// pattern matches no file: per configuration, the global `exclude` pattern
/// against the project files, then each hook's `exclude` pattern against its
/// selected files.
pub open spec fn useless_flags(files: Seq<Seq<char>>, configs: Seq<ConfigExcludes>) -> Seq<bool>
    decreases configs.len(),
{
    if configs.len() == 0 {
        Seq::empty()
    } else {
        useless_flags(files, configs.drop_last()) + seq![
            global_exclude_useless(files, configs.last()),
        ] + hooks_useless(configs.last().hooks@)
    }
}

/// The hooks' part of the report holds the line of each hook whose `exclude`
/// pattern matches none of its selected files, in hook order, and no other
/// line: every such hook is reported, however many there are.
pub proof fn lemma_hooks_report_lists_each_useless_hook(hooks: Seq<HookExcludes>)
    ensures
        hooks_useless(hooks).len() == hook_lines(hooks).len(),
        hooks_excludes_text(hooks) == picked_text(hook_lines(hooks), hooks_useless(hooks)),
    decreases hooks.len(),
{
    if hooks.len() > 0 {
        lemma_hooks_report_lists_each_useless_hook(hooks.drop_last());
        assert(hook_lines(hooks).drop_last() == hook_lines(hooks.drop_last()));
        assert(hooks_useless(hooks).drop_last() == hooks_useless(hooks.drop_last()));
        assert(hook_lines(hooks).last() == hook_exclude_line(hooks.last()));
        assert(hooks_useless(hooks).last() == hook_exclude_useless(hooks.last()));
    }
}

/// The report of the useless-excludes check holds, for each configuration in
/// order, the line of its global `exclude` pattern when that matches no
/// project file, then the line of each hook whose `exclude` pattern matches
/// none of its selected files, in hook order, and nothing else.
pub proof fn lemma_useless_excludes_report_lines(files: Seq<Seq<char>>, configs: Seq<ConfigExcludes>)
    ensures
        useless_flags(files, configs).len() == report_lines(configs).len(),
        useless_excludes_text(files, configs) == picked_text(
            report_lines(configs),
            useless_flags(files, configs),
        ),
    decreases configs.len(),
{
    if configs.len() > 0 {
        let prev = configs.drop_last();
        let c = configs.last();
        lemma_useless_excludes_report_lines(files, prev);
        lemma_hooks_report_lists_each_useless_hook(c.hooks@);
        let gl = global_exclude_line(c);
        let g = global_exclude_useless(files, c);
        assert(seq![gl] == Seq::<Seq<char>>::empty().push(gl));
        assert(seq![g] == Seq::<bool>::empty().push(g));
        lemma_picked_push(Seq::empty(), Seq::empty(), gl, g);
        lemma_picked_concat(seq![gl], seq![g], hook_lines(c.hooks@), hooks_useless(c.hooks@));
        assert(picked_text(config_lines(c), seq![g] + hooks_useless(c.hooks@))
            == config_excludes_text(files, c));
        lemma_picked_concat(
            report_lines(prev),
            useless_flags(files, prev),
            config_lines(c),
            seq![g] + hooks_useless(c.hooks@),
        );
        assert(useless_flags(files, configs) == useless_flags(files, prev) + (seq![g]
            + hooks_useless(c.hooks@)));
    }
}

/// The rule of `excludes_any`: with no `exclude` pattern the answer is true;
/// otherwise it is true exactly when some file is matched by the `exclude`
/// pattern and, where there is one, by the files pattern. This holds for
/// every kind of pattern.
pub proof fn lemma_excludes_any_rule(
    files: Seq<Seq<char>>,
    files_pattern: Option<FilePatternView>,
    exclude: Option<FilePatternView>,
)
    ensures
        exclude is None ==> excludes_any_spec(files, files_pattern, exclude),
        exclude matches Some(e) ==> (excludes_any_spec(files, files_pattern, exclude) <==> exists|i: int|
            0 <= i < files.len() && (files_pattern matches Some(p) ==> p.matches_path(
                #[trigger] files[i],
            )) && e.matches_path(files[i])),
{
    if exclude is Some {
        if excludes_any_spec(files, files_pattern, exclude) {
            let i = choose|i: int|
                0 <= i < files.len() && #[trigger] caught(files[i], files_pattern, exclude);
            assert(files[i] == files[i]);
        }
        if exists|i: int|
            0 <= i < files.len() && (files_pattern matches Some(p) ==> p.matches_path(
                #[trigger] files[i],
            )) && exclude->0.matches_path(files[i]) {
            let i = choose|i: int|
                0 <= i < files.len() && (files_pattern matches Some(p) ==> p.matches_path(
                    #[trigger] files[i],
                )) && exclude->0.matches_path(files[i]);
            assert(caught(files[i], files_pattern, exclude));
        }
    }
}

/// The report of the check that hooks apply holds the line of each hook that
/// applies to no file, in hook order, and no other line.
pub proof fn lemma_hooks_apply_report_lists_each_idle_hook(hooks: Seq<HookApplication>)
    ensures
        hooks_apply_text(hooks) == picked_text(
            hooks.map_values(|h: HookApplication| not_applied_line(h.id@)),
            hooks.map_values(|h: HookApplication| does_not_apply(h)),
        ),
    decreases hooks.len(),
{
    if hooks.len() > 0 {
        lemma_hooks_apply_report_lists_each_idle_hook(hooks.drop_last());
        assert(hooks.map_values(|h: HookApplication| not_applied_line(h.id@)).drop_last()
            == hooks.drop_last().map_values(|h: HookApplication| not_applied_line(h.id@)));
        assert(hooks.map_values(|h: HookApplication| does_not_apply(h)).drop_last()
            == hooks.drop_last().map_values(|h: HookApplication| does_not_apply(h)));
    }
}

/// The two meta checks that read configurations run on the configuration
/// files, by their names, and nothing else; `identity` runs on every file.
pub proof fn lemma_meta_checks_run_on_config_files(h: MetaHooks)
    ensures
        h != MetaHooks::Identity ==> meta_definition(h).options.files == Some(
            FilePatternView::Glob(config_filenames_spec()),
        ),
        h == MetaHooks::Identity ==> meta_definition(h).options.files is None,
{
}

} // verus!
