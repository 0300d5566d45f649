//! File patterns of hook options (`files` and `exclude`): a regular
//! expression, a set of globs, or a pattern that matches nothing.

use vstd::prelude::*;
use crate::text::views;

verus! {

/// Whether `regex::Regex::new` accepts the pattern on a target whose
/// pointers are `pointer_bits` wide: the size limit on the compiled program
/// is counted in bytes of structures whose size follows the pointer width.
pub uninterp spec fn regex_accepts(pattern: Seq<char>, pointer_bits: u32) -> bool;

/// What `regex::Regex::is_match` answers for the regex built from `pattern`
/// on `text`: whether the expression matches somewhere in the text.
pub uninterp spec fn regex_finds(pattern: Seq<char>, text: Seq<char>) -> bool;

/// Builds a `regex::Regex` from `pattern` and, when that succeeds, asks its
/// `is_match` about `text`. The contract claims that the result is `None`
/// exactly when `Regex::new` refuses the pattern, and otherwise carries what
/// `is_match` answered. Both are named: whether the pattern is accepted
/// depends on the pattern and the target's pointer width, what a built regex
/// matches on the two strings alone.
#[verifier::external_body]
fn regex_search(pattern: &str, text: &str) -> (r: Option<bool>)
    ensures
        r is Some <==> regex_accepts(pattern@, usize::BITS),
        r matches Some(b) ==> b == regex_finds(pattern@, text@),
{
    regex::Regex::new(pattern).ok().map(|re| re.is_match(text))
}

/// Whether a glob or a path reads the same on every platform: it holds no
/// backslash, which `globset` reads as an escape on Unix and as a separator
/// on Windows.
pub open spec fn backslash_free(s: Seq<char>) -> bool {
    !s.contains('\\')
}

/// Whether each of the strings is free of backslashes.
pub open spec fn all_backslash_free(ss: Seq<Seq<char>>) -> bool {
    forall|i: int| 0 <= i < ss.len() ==> backslash_free(#[trigger] ss[i])
}

/// Whether `globset` builds a glob set of the globs (each `Glob::new`, then
/// `GlobSetBuilder::build`), for globs free of backslashes, on a target whose
/// pointers are `pointer_bits` wide (the build has a size limit counted as
/// for `regex_accepts`).
pub uninterp spec fn glob_set_accepts(globs: Seq<Seq<char>>, pointer_bits: u32) -> bool;

/// What `globset::GlobSet::is_match` answers for the set of the globs on the
/// path `text`, for globs and paths free of backslashes.
pub uninterp spec fn glob_set_finds(globs: Seq<Seq<char>>, text: Seq<char>) -> bool;

/// Builds a `globset::GlobSet` of the globs (`Glob::new` for each, added to a
/// `GlobSetBuilder`, then `build`) and, when that succeeds, asks its
/// `is_match` about the path `text`. `None` means that a glob or the set was
/// refused; whether they are accepted is named with the target's pointer
/// width. The contract names both answers only where no glob and not the
/// path hold a backslash: `globset` escapes with a backslash on Unix and
/// reads it as a separator on Windows, so elsewhere the answer depends on the
/// platform and nothing is claimed.
#[verifier::external_body]
fn glob_set_search(globs: &Vec<String>, text: &str) -> (r: Option<bool>)
    ensures
        all_backslash_free(views(globs@)) ==> (r is Some <==> glob_set_accepts(views(globs@), usize::BITS)),
        all_backslash_free(views(globs@)) && backslash_free(text@) ==> (r matches Some(b) ==> b
            == glob_set_finds(views(globs@), text@)),
{
    let mut builder = globset::GlobSetBuilder::new();
    for glob in globs {
        match globset::Glob::new(glob) {
            Ok(g) => {
                builder.add(g);
            },
            Err(_) => return None,
        }
    }
    builder.build().ok().map(|set| set.is_match(text))
}

/// A file pattern.
#[derive(Clone, Debug, PartialEq, Eq)]
pub enum FilePattern {
    /// A regular expression, searched anywhere in a path.
    Regex(String),
    /// A set of globs; a path matches when one of them matches it.
    Glob(Vec<String>),
    /// Matches no path.
    Never,
}

/// The mathematical value of a file pattern.
pub enum FilePatternView {
    Regex(Seq<char>),
    Glob(Seq<Seq<char>>),
    Never,
}

impl View for FilePattern {
    type V = FilePatternView;

    open spec fn view(&self) -> FilePatternView {
        match self {
            FilePattern::Regex(p) => FilePatternView::Regex(p@),
            FilePattern::Glob(gs) => FilePatternView::Glob(views(gs@)),
            FilePattern::Never => FilePatternView::Never,
        }
    }
}

/// Why a pattern could not be built.
#[derive(Clone, Copy, Debug, PartialEq, Eq)]
pub enum PatternError {
    /// The regular expression is not accepted.
    InvalidRegex,
    /// One of the globs is not accepted.
    InvalidGlob,
}

impl FilePatternView {
    /// Whether the pattern matches the path `text`.
    pub open spec fn matches_path(self, text: Seq<char>) -> bool {
        match self {
            FilePatternView::Regex(p) => regex_accepts(p, usize::BITS) && regex_finds(p, text),
            FilePatternView::Glob(gs) => glob_set_accepts(gs, usize::BITS) && glob_set_finds(gs, text),
            FilePatternView::Never => false,
        }
    }

    /// Whether matching the path `text` against the pattern gives the same
    /// answer on every platform: always for a regular expression or the empty
    /// pattern, and for globs where neither they nor the path hold a
    /// backslash.
    pub open spec fn portable_for(self, text: Seq<char>) -> bool {
        match self {
            FilePatternView::Glob(gs) => all_backslash_free(gs) && backslash_free(text),
            _ => true,
        }
    }

    /// How the pattern is shown in messages: the regular expression itself,
    /// or the globs separated by `, `.
    pub open spec fn shown(self) -> Seq<char> {
        match self {
            FilePatternView::Regex(p) => p,
            FilePatternView::Glob(gs) => crate::text::joined(gs, seq![',', ' ']),
            FilePatternView::Never => Seq::empty(),
        }
    }
}

impl FilePattern {
    /// A pattern of one regular expression; refused where the expression is.
    pub fn new_regex(pattern: &str) -> (r: Result<FilePattern, PatternError>)
        ensures
            match r {
                Ok(p) => regex_accepts(pattern@, usize::BITS) && p@ == FilePatternView::Regex(pattern@),
                Err(e) => !regex_accepts(pattern@, usize::BITS) && e is InvalidRegex,
            },
    {
        match regex_search(pattern, "") {
            Some(_) => Ok(FilePattern::Regex(pattern.to_owned())),
            None => Err(PatternError::InvalidRegex),
        }
    }

    /// A pattern of several globs; refused where `globset` refuses them.
    /// Where a glob holds a backslash, whether it is refused depends on the
    /// platform and is not stated.
    pub fn new_glob(globs: Vec<String>) -> (r: Result<FilePattern, PatternError>)
        ensures
            r matches Ok(p) ==> p@ == FilePatternView::Glob(views(globs@)),
            r matches Err(e) ==> e is InvalidGlob,
            all_backslash_free(views(globs@)) ==> (r is Ok <==> glob_set_accepts(views(globs@), usize::BITS)),
    {
        match glob_set_search(&globs, "") {
            Some(_) => Ok(FilePattern::Glob(globs)),
            None => Err(PatternError::InvalidGlob),
        }
    }

    /// Whether the pattern matches the path `text`; stated where the answer
    /// is the same on every platform.
    pub fn is_match(&self, text: &str) -> (r: bool)
        ensures
            self@.portable_for(text@) ==> r == self@.matches_path(text@),
    {
        match self {
            FilePattern::Regex(p) => match regex_search(p.as_str(), text) {
                Some(b) => b,
                None => false,
            },
            FilePattern::Glob(gs) => match glob_set_search(gs, text) {
                Some(b) => b,
                None => false,
            },
            FilePattern::Never => false,
        }
    }

    /// How the pattern is shown in messages.
    pub fn shown(&self) -> (r: String)
        ensures
            r@ == self@.shown(),
    {
        match self {
            FilePattern::Regex(p) => p.clone(),
            FilePattern::Glob(gs) => {
                let r = crate::text::join(gs.as_slice(), ", ");
                proof {
                    reveal_strlit(", ");
                    assert(", "@ == seq![',', ' ']);
                }
                r
            },
            FilePattern::Never => String::new(),
        }
    }
}

} // verus!
