//! The decisions of `try-repo`: which repository and revision to try, the
//! manifests of the built-in and meta repositories, which hooks to keep, and
//! the configuration file that is generated for them.

use vstd::prelude::*;
use crate::builtin_hooks::{
    all_builtin_hooks, builtin_definition, lemma_builtin_name_round_trip, BuiltinHooks,
};
use crate::config::{
    manifest_views, BuiltinHook, Language, Manifest, ManifestHook,
    ManifestHookView, MetaHook,
};
use crate::meta_hooks::{all_meta_hooks, lemma_meta_name_round_trip, meta_definition, MetaHooks};
use crate::toml_out::repo_config_toml;
use crate::text::{first_ascii_field, first_field, from_utf8_lossy, same_text, trim, trimmed, utf8_lossy, views};

verus! {

/// Where the hooks to try come from.
#[derive(Clone, Copy, Debug, PartialEq, Eq, Structural)]
pub enum RepoKind {
    /// The hooks built into the program (`builtin`).
    Builtin,
    /// The meta hooks (`meta`).
    Meta,
    /// A git repository, local or remote.
    Git,
}

/// The kind of repository that the name `repo` stands for.
pub open spec fn repo_kind_of(repo: Seq<char>) -> RepoKind {
    if repo == "builtin"@ {
        RepoKind::Builtin
    } else if repo == "meta"@ {
        RepoKind::Meta
    } else {
        RepoKind::Git
    }
}

/// The kind of repository that the name `repo` stands for.
pub fn repo_kind(repo: &str) -> (r: RepoKind)
    ensures
        r == repo_kind_of(repo@),
{
    if same_text(repo, "builtin") {
        RepoKind::Builtin
    } else if same_text(repo, "meta") {
        RepoKind::Meta
    } else {
        RepoKind::Git
    }
}

/// Whether a configuration names the repository `repo` with a revision: the
/// `builtin`, `meta` and `local` repositories take none.
pub open spec fn takes_rev(repo: Seq<char>) -> bool {
    repo != "builtin"@ && repo != "meta"@ && repo != "local"@
}

/// The revision that the generated configuration gives the repository: the
/// given one, except for the repositories that take none.
pub fn config_rev<'a>(repo: &str, rev: Option<&'a str>) -> (r: Option<&'a str>)
    ensures
        r == (if takes_rev(repo@) { rev } else { None }),
{
    match rev {
        Some(rev_str) => {
            if !same_text(repo, "builtin") && !same_text(repo, "meta") && !same_text(repo, "local") {
                Some(rev_str)
            } else {
                None
            }
        },
        None => None,
    }
}

/// Renders the configuration that tries the hooks `hooks` of `repo` at the
/// revision `rev`; the revision is left out for the repositories that take
/// none (see [`config_rev`]).
pub fn render_repo_config_toml(repo: &str, rev: Option<&str>, hooks: Vec<String>) -> (r: String)
    ensures
        r@ == repo_config_toml(
            repo@,
            if takes_rev(repo@) {
                opt_str(rev)
            } else {
                None
            },
            views(hooks@),
        ),
{
    crate::toml_out::repo_config_text(repo, config_rev(repo, rev), &hooks)
}

/// The manifest entry of a built-in hook: its definition, run in Rust.
pub open spec fn builtin_manifest_hook(h: BuiltinHooks) -> ManifestHookView {
    let d = builtin_definition(h);
    ManifestHookView {
        id: d.id,
        name: d.name,
        entry: d.entry,
        language: Language::Rust,
        options: d.options,
    }
}

/// The manifest of the built-in repository: every built-in hook, in order.
pub open spec fn builtin_manifest_spec() -> Seq<ManifestHookView> {
    all_builtin_hooks().map_values(|h: BuiltinHooks| builtin_manifest_hook(h))
}

/// The manifest entry of a meta hook: its definition, with the entry `meta`,
/// run as a system command.
pub open spec fn meta_manifest_hook(h: MetaHooks) -> ManifestHookView {
    let d = meta_definition(h);
    ManifestHookView {
        id: d.id,
        name: d.name,
        entry: "meta"@,
        language: Language::System,
        options: d.options,
    }
}

/// The manifest of the meta repository: every meta hook, in order.
pub open spec fn meta_manifest_spec() -> Seq<ManifestHookView> {
    all_meta_hooks().map_values(|h: MetaHooks| meta_manifest_hook(h))
}

/// A synthetic manifest of the built-in hooks: each listed built-in hook
/// that has a definition, in order.
pub fn builtin_manifest() -> (m: Manifest)
    ensures
        m@ == builtin_manifest_spec(),
{
    let names = BuiltinHooks::all_hooks();
    let ghost all = all_builtin_hooks();
    let mut hooks: Vec<ManifestHook> = Vec::new();
    let mut i: usize = 0;
    assert(views(names@).len() == names@.len());
    while i < names.len()
        invariant
            0 <= i <= names@.len(),
            names@.len() == all.len(),
            all == all_builtin_hooks(),
            views(names@) == all.map_values(|h: BuiltinHooks| h.name()),
            manifest_views(hooks@) == builtin_manifest_spec().take(i as int),
        decreases names@.len() - i,
    {
        proof {
            assert(names@[i as int]@ == views(names@)[i as int]);
            assert(names@[i as int]@ == all[i as int].name());
            lemma_builtin_name_round_trip(all[i as int]);
        }
        match BuiltinHook::from_id(names[i].as_str()) {
            Ok(hook) => {
                let entry = ManifestHook {
                    id: hook.id,
                    name: hook.name,
                    entry: hook.entry,
                    language: Language::Rust,
                    options: hook.options,
                };
                hooks.push(entry);
                proof {
                    assert(builtin_manifest_spec().take(i + 1) == builtin_manifest_spec().take(
                        i as int,
                    ).push(builtin_manifest_spec()[i as int]));
                    assert(manifest_views(hooks@) == builtin_manifest_spec().take(i + 1));
                }
            },
            Err(_) => {
                assert(false);
            },
        }
        i = i + 1;
    }
    proof {
        assert(builtin_manifest_spec().take(names@.len() as int) == builtin_manifest_spec());
    }
    Manifest { hooks }
}

/// A synthetic manifest of the meta hooks: each listed meta hook that has a
/// definition, with the entry `meta`, in order.
pub fn meta_manifest() -> (m: Manifest)
    ensures
        m@ == meta_manifest_spec(),
{
    let names = MetaHooks::all_hooks();
    let ghost all = all_meta_hooks();
    let mut hooks: Vec<ManifestHook> = Vec::new();
    let mut i: usize = 0;
    assert(views(names@).len() == names@.len());
    while i < names.len()
        invariant
            0 <= i <= names@.len(),
            names@.len() == all.len(),
            all == all_meta_hooks(),
            views(names@) == all.map_values(|h: MetaHooks| h.name()),
            manifest_views(hooks@) == meta_manifest_spec().take(i as int),
        decreases names@.len() - i,
    {
        proof {
            assert(names@[i as int]@ == views(names@)[i as int]);
            assert(names@[i as int]@ == all[i as int].name());
            lemma_meta_name_round_trip(all[i as int]);
        }
        match MetaHook::from_id(names[i].as_str()) {
            Ok(hook) => {
                let entry = ManifestHook {
                    id: hook.id,
                    name: hook.name,
                    entry: "meta".to_owned(),
                    language: Language::System,
                    options: hook.options,
                };
                hooks.push(entry);
                proof {
                    assert(meta_manifest_spec().take(i + 1) == meta_manifest_spec().take(
                        i as int,
                    ).push(meta_manifest_spec()[i as int]));
                    assert(manifest_views(hooks@) == meta_manifest_spec().take(i + 1));
                }
            },
            Err(_) => {
                assert(false);
            },
        }
        i = i + 1;
    }
    proof {
        assert(meta_manifest_spec().take(names@.len() as int) == meta_manifest_spec());
    }
    Manifest { hooks }
}


/// Whether `id` is one of the strings of `list`.
fn listed(list: &Vec<String>, id: &str) -> (r: bool)
    ensures
        r == views(list@).contains(id@),
{
    let mut i: usize = 0;
    while i < list.len()
        invariant
            0 <= i <= list@.len(),
            forall|k: int| 0 <= k < i ==> #[trigger] views(list@)[k] != id@,
        decreases list@.len() - i,
    {
        if same_text(list[i].as_str(), id) {
            assert(views(list@)[i as int] == id@);
            return true;
        }
        i = i + 1;
    }
    false
}

/// Which hooks a run selects by id: those named on the command line, or all
/// when none is named, less those that are skipped.
#[derive(Clone, Debug, PartialEq, Eq)]
pub struct HookSelection {
    pub includes: Vec<String>,
    pub skips: Vec<String>,
}

/// Whether a selection of `includes` and `skips` keeps the hook `id`.
pub open spec fn selects(includes: Seq<Seq<char>>, skips: Seq<Seq<char>>, id: Seq<char>) -> bool {
    (includes.len() == 0 || includes.contains(id)) && !skips.contains(id)
}

/// The ids that the selection keeps, in their order.
pub open spec fn selected_ids(
    ids: Seq<Seq<char>>,
    includes: Seq<Seq<char>>,
    skips: Seq<Seq<char>>,
) -> Seq<Seq<char>>
    decreases ids.len(),
{
    if ids.len() == 0 {
        Seq::empty()
    } else if selects(includes, skips, ids.last()) {
        selected_ids(ids.drop_last(), includes, skips).push(ids.last())
    } else {
        selected_ids(ids.drop_last(), includes, skips)
    }
}

impl HookSelection {
    /// Whether the selection keeps the hook `id`.
    pub fn matches_hook_id(&self, id: &str) -> (r: bool)
        ensures
            r == selects(views(self.includes@), views(self.skips@), id@),
    {
        (self.includes.len() == 0 || listed(&self.includes, id)) && !listed(&self.skips, id)
    }
}

/// The ids of the hooks of a manifest, in order.
pub open spec fn manifest_ids(hooks: Seq<ManifestHookView>) -> Seq<Seq<char>> {
    hooks.map_values(|h: ManifestHookView| h.id)
}

impl Manifest {
    /// The ids of the manifest's hooks, in order.
    pub fn hook_ids(&self) -> (r: Vec<String>)
        ensures
            views(r@) == manifest_ids(self@),
    {
        let mut r: Vec<String> = Vec::new();
        let mut i: usize = 0;
        while i < self.hooks.len()
            invariant
                0 <= i <= self.hooks@.len(),
                views(r@) == manifest_ids(manifest_views(self.hooks@.take(i as int))),
            decreases self.hooks@.len() - i,
        {
            r.push(self.hooks[i].id.clone());
            proof {
                assert(manifest_ids(manifest_views(self.hooks@.take(i + 1))) == manifest_ids(
                    manifest_views(self.hooks@.take(i as int)),
                ).push(self.hooks@[i as int].id@));
            }
            i = i + 1;
        }
        proof {
            assert(self.hooks@.take(self.hooks@.len() as int) == self.hooks@);
        }
        r
    }
}

/// The ids that the selection keeps, in their order.
pub fn selected_hook_ids(ids: &[String], selection: &HookSelection) -> (r: Vec<String>)
    ensures
        views(r@) == selected_ids(views(ids@), views(selection.includes@), views(selection.skips@)),
{
    let ghost incl = views(selection.includes@);
    let ghost skips = views(selection.skips@);
    let mut r: Vec<String> = Vec::new();
    let mut i: usize = 0;
    while i < ids.len()
        invariant
            0 <= i <= ids@.len(),
            incl == views(selection.includes@),
            skips == views(selection.skips@),
            views(r@) == selected_ids(views(ids@.take(i as int)), incl, skips),
        decreases ids@.len() - i,
    {
        let id = &ids[i];
        proof {
            assert(views(ids@.take(i + 1)).drop_last() == views(ids@.take(i as int)));
        }
        if selection.matches_hook_id(id.as_str()) {
            r.push(id.clone());
        }
        i = i + 1;
    }
    proof {
        assert(ids@.take(ids@.len() as int) == ids@);
    }
    r
}

/// With no hook named and none skipped, every id is kept, in order.
pub proof fn lemma_select_everything(ids: Seq<Seq<char>>)
    ensures
        selected_ids(ids, Seq::empty(), Seq::empty()) == ids,
    decreases ids.len(),
{
    if ids.len() > 0 {
        lemma_select_everything(ids.drop_last());
        assert(ids.drop_last().push(ids.last()) == ids);
    }
}

/// A kept id is one of the given ids, is never a skipped one, and is one of
/// those named on the command line where any is named.
pub proof fn lemma_selected_respects_selection(
    ids: Seq<Seq<char>>,
    includes: Seq<Seq<char>>,
    skips: Seq<Seq<char>>,
    id: Seq<char>,
)
    requires
        selected_ids(ids, includes, skips).contains(id),
    ensures
        ids.contains(id),
        !skips.contains(id),
        includes.len() > 0 ==> includes.contains(id),
    decreases ids.len(),
{
    if ids.len() > 0 {
        let prev = selected_ids(ids.drop_last(), includes, skips);
        if prev.contains(id) {
            lemma_selected_respects_selection(ids.drop_last(), includes, skips, id);
            let i = choose|i: int| 0 <= i < ids.drop_last().len() && ids.drop_last()[i] == id;
            assert(ids[i] == id);
        } else {
            let all = selected_ids(ids, includes, skips);
            let k = choose|k: int| 0 <= k < all.len() && all[k] == id;
            if selects(includes, skips, ids.last()) {
                assert(all == prev.push(ids.last()));
                if k < prev.len() {
                    assert(prev[k] == id);
                }
                assert(ids[ids.len() - 1] == id);
            } else {
                assert(prev.contains(id));
            }
        }
    }
}

/// An id among the given ones that is not skipped is kept when it is named
/// on the command line, or when no hook is named, whatever the skips hold
/// besides it.
pub proof fn lemma_named_and_not_skipped_is_kept(
    ids: Seq<Seq<char>>,
    includes: Seq<Seq<char>>,
    skips: Seq<Seq<char>>,
    id: Seq<char>,
)
    requires
        ids.contains(id),
        includes.len() == 0 || includes.contains(id),
        !skips.contains(id),
    ensures
        selected_ids(ids, includes, skips).contains(id),
    decreases ids.len(),
{
    let all = selected_ids(ids, includes, skips);
    if ids.last() == id {
        assert(all == selected_ids(ids.drop_last(), includes, skips).push(id));
        assert(all[all.len() - 1] == id);
    } else {
        let k = choose|k: int| 0 <= k < ids.len() && ids[k] == id;
        assert(ids.drop_last()[k] == id);
        lemma_named_and_not_skipped_is_kept(ids.drop_last(), includes, skips, id);
        let prev = selected_ids(ids.drop_last(), includes, skips);
        let j = choose|j: int| 0 <= j < prev.len() && prev[j] == id;
        if selects(includes, skips, ids.last()) {
            assert(all == prev.push(ids.last()));
            assert(all[j] == id);
        } else {
            assert(all == prev);
        }
    }
}

/// The revision named by the output of `git rev-parse HEAD`: the output as
/// text, trimmed of white space.
pub fn head_rev_from_output(stdout: &[u8]) -> (r: String)
    ensures
        r@ == trimmed(utf8_lossy(stdout@)),
{
    let text = from_utf8_lossy(stdout);
    trim(text.as_str())
}

/// The revision named by the output of `git ls-remote --exit-code <repo>
/// HEAD`: the first field of the output as text, `None` where there is none.
pub fn remote_head_from_output(stdout: &[u8]) -> (r: Option<String>)
    ensures
        match r {
            Some(h) => first_field(utf8_lossy(stdout@)) == Some(h@),
            None => first_field(utf8_lossy(stdout@)) is None,
        },
{
    let text = from_utf8_lossy(stdout);
    first_ascii_field(text.as_str())
}

/// What has happened so far while the repository and revision to try are
/// worked out; the caller performs each action and hands back what came of
/// it.
#[derive(Clone, Debug, PartialEq, Eq)]
pub enum PrepareEvent {
    /// Nothing has been done yet.
    Start,
    /// The output of `git rev-parse HEAD` in the local repository.
    LocalHead(Vec<u8>),
    /// The output of `git ls-remote --exit-code <repo> HEAD`.
    RemoteHead(Vec<u8>),
    /// Whether the local repository at the revision `head_rev` has
    /// uncommitted changes.
    Diff { head_rev: String, has_diff: bool },
    /// The shadow repository that holds the uncommitted changes, and the
    /// output of `git rev-parse HEAD` in it.
    Shadow { path: String, head_output: Vec<u8> },
}

/// What to do next.
#[derive(Clone, Debug, PartialEq, Eq)]
pub enum PrepareAction {
    /// Try the repository `repo` at the revision `rev`.
    Finish { repo: String, rev: String },
    /// Run `git rev-parse HEAD` in the local repository.
    ReadLocalHead,
    /// Run `git ls-remote --exit-code <repo> HEAD`.
    ReadRemoteHead,
    /// Ask git whether the local repository differs from `HEAD`.
    CheckDiff { head_rev: String },
    /// Clone the local repository at `head_rev`, commit its staged and
    /// unstaged changes there, and report the clone's head.
    CommitToShadow { head_rev: String },
    /// The output of `git ls-remote` names no revision.
    Fail,
}

/// The mathematical value of a [`PrepareEvent`].
pub enum PrepareEventView {
    Start,
    LocalHead(Seq<u8>),
    RemoteHead(Seq<u8>),
    Diff { head_rev: Seq<char>, has_diff: bool },
    Shadow { path: Seq<char>, head_output: Seq<u8> },
}

/// The mathematical value of a [`PrepareAction`].
pub enum PrepareActionView {
    Finish { repo: Seq<char>, rev: Seq<char> },
    ReadLocalHead,
    ReadRemoteHead,
    CheckDiff { head_rev: Seq<char> },
    CommitToShadow { head_rev: Seq<char> },
    Fail,
}

impl View for PrepareEvent {
    type V = PrepareEventView;

    open spec fn view(&self) -> PrepareEventView {
        match self {
            PrepareEvent::Start => PrepareEventView::Start,
            PrepareEvent::LocalHead(o) => PrepareEventView::LocalHead(o@),
            PrepareEvent::RemoteHead(o) => PrepareEventView::RemoteHead(o@),
            PrepareEvent::Diff { head_rev, has_diff } => PrepareEventView::Diff {
                head_rev: head_rev@,
                has_diff: *has_diff,
            },
            PrepareEvent::Shadow { path, head_output } => PrepareEventView::Shadow {
                path: path@,
                head_output: head_output@,
            },
        }
    }
}

impl View for PrepareAction {
    type V = PrepareActionView;

    open spec fn view(&self) -> PrepareActionView {
        match self {
            PrepareAction::Finish { repo, rev } => PrepareActionView::Finish {
                repo: repo@,
                rev: rev@,
            },
            PrepareAction::ReadLocalHead => PrepareActionView::ReadLocalHead,
            PrepareAction::ReadRemoteHead => PrepareActionView::ReadRemoteHead,
            PrepareAction::CheckDiff { head_rev } => PrepareActionView::CheckDiff {
                head_rev: head_rev@,
            },
            PrepareAction::CommitToShadow { head_rev } => PrepareActionView::CommitToShadow {
                head_rev: head_rev@,
            },
            PrepareAction::Fail => PrepareActionView::Fail,
        }
    }
}

/// Once the head revision is known: a local repository is checked for
/// uncommitted changes, any other is tried at that revision.
pub open spec fn after_head(repo: Seq<char>, is_local: bool, head: Seq<char>) -> PrepareActionView {
    if is_local {
        PrepareActionView::CheckDiff { head_rev: head }
    } else {
        PrepareActionView::Finish { repo, rev: head }
    }
}

/// The next step in working out the repository and revision to try.
pub open spec fn prepare_next(
    repo: Seq<char>,
    rev: Option<Seq<char>>,
    is_local: bool,
    event: PrepareEventView,
) -> PrepareActionView {
    match event {
        PrepareEventView::Start => match rev {
            Some(r) => PrepareActionView::Finish { repo, rev: r },
            None => if is_local {
                PrepareActionView::ReadLocalHead
            } else {
                PrepareActionView::ReadRemoteHead
            },
        },
        PrepareEventView::LocalHead(out) => after_head(repo, is_local, trimmed(utf8_lossy(out))),
        PrepareEventView::RemoteHead(out) => match first_field(utf8_lossy(out)) {
            Some(head) => after_head(repo, is_local, head),
            None => PrepareActionView::Fail,
        },
        PrepareEventView::Diff { head_rev, has_diff } => if is_local && has_diff {
            PrepareActionView::CommitToShadow { head_rev }
        } else {
            PrepareActionView::Finish { repo, rev: head_rev }
        },
        PrepareEventView::Shadow { path, head_output } => PrepareActionView::Finish {
            repo: path,
            rev: trimmed(utf8_lossy(head_output)),
        },
    }
}

/// A given revision is used as it is: for every repository, local or
/// remote, the first step finishes with that repository and that revision,
/// and no head is read.
pub proof fn lemma_given_revision_is_used(repo: Seq<char>, rev: Seq<char>, is_local: bool)
    ensures
        prepare_next(repo, Some(rev), is_local, PrepareEventView::Start) == (PrepareActionView::Finish {
            repo,
            rev,
        }),
{
}

/// Without a revision, the first step reads the head: of the repository on
/// disk where it is local, of the remote's `HEAD` otherwise.
pub proof fn lemma_no_revision_reads_the_head(repo: Seq<char>, is_local: bool)
    ensures
        is_local ==> prepare_next(repo, None, is_local, PrepareEventView::Start)
            == PrepareActionView::ReadLocalHead,
        !is_local ==> prepare_next(repo, None, is_local, PrepareEventView::Start)
            == PrepareActionView::ReadRemoteHead,
{
}

/// A repository that is not local is never copied to a shadow clone: no step
/// asks to check it for changes or to commit them.
pub proof fn lemma_remote_repository_is_never_shadowed(
    repo: Seq<char>,
    rev: Option<Seq<char>>,
    event: PrepareEventView,
)
    ensures
        !(prepare_next(repo, rev, false, event) is CheckDiff),
        !(prepare_next(repo, rev, false, event) is CommitToShadow),
{
}

/// The view of an optional string slice.
pub open spec fn opt_str(o: Option<&str>) -> Option<Seq<char>> {
    match o {
        Some(s) => Some(s@),
        None => None,
    }
}

fn after_head_action(repo: &str, is_local: bool, head: String) -> (r: PrepareAction)
    ensures
        r@ == after_head(repo@, is_local, head@),
{
    if is_local {
        PrepareAction::CheckDiff { head_rev: head }
    } else {
        PrepareAction::Finish { repo: repo.to_owned(), rev: head }
    }
}

/// Works out, one step at a time, the repository and revision to try: a
/// given revision is used as it is; otherwise the head of the repository is
/// read, and a local repository with uncommitted changes is replaced by a
/// shadow clone in which those changes are committed.
pub fn prepare_step(repo: &str, rev: Option<&str>, is_local: bool, event: PrepareEvent) -> (r:
    PrepareAction)
    ensures
        r@ == prepare_next(repo@, opt_str(rev), is_local, event@),
{
    match event {
        PrepareEvent::Start => match rev {
            Some(r) => PrepareAction::Finish { repo: repo.to_owned(), rev: r.to_owned() },
            None => if is_local {
                PrepareAction::ReadLocalHead
            } else {
                PrepareAction::ReadRemoteHead
            },
        },
        PrepareEvent::LocalHead(out) => {
            let head = head_rev_from_output(out.as_slice());
            after_head_action(repo, is_local, head)
        },
        PrepareEvent::RemoteHead(out) => match remote_head_from_output(out.as_slice()) {
            Some(head) => after_head_action(repo, is_local, head),
            None => PrepareAction::Fail,
        },
        PrepareEvent::Diff { head_rev, has_diff } => if is_local && has_diff {
            PrepareAction::CommitToShadow { head_rev }
        } else {
            PrepareAction::Finish { repo: repo.to_owned(), rev: head_rev }
        },
        PrepareEvent::Shadow { path, head_output } => PrepareAction::Finish {
            repo: path,
            rev: head_rev_from_output(head_output.as_slice()),
        },
    }
}

} // verus!
