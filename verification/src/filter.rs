//! Deciding whether a source is eligible for deployment, given the ignore
//! patterns of its profile.

use vstd::prelude::*;
use crate::config::{strings_view, ProfileConfig};

verus! {

/// `needle` occurs in `hay` at position `i`.
pub open spec fn occurs_at(hay: Seq<char>, needle: Seq<char>, i: int) -> bool {
    0 <= i && i + needle.len() <= hay.len() && hay.subrange(i, i + needle.len()) == needle
}

/// `needle` is a substring of `hay`.
pub open spec fn contains_substring(hay: Seq<char>, needle: Seq<char>) -> bool {
    exists|i: int| occurs_at(hay, needle, i)
}

/// Calls `str::contains` with a string as the pattern.  Trusted: it answers
/// whether the pattern occurs in the string as a contiguous run of
/// characters; in particular, the empty pattern occurs in every string.
#[verifier::external_body]
pub(crate) fn str_contains(hay: &str, needle: &str) -> (r: bool)
    ensures
        r == contains_substring(hay@, needle@),
{
    hay.contains(needle)
}

/// What a walk over a source yields for one directory entry.
#[derive(Clone, Debug, PartialEq, Eq)]
pub enum WalkEntry {
    /// An entry with its path.
    Path(String),
    /// An entry whose path is not valid Unicode.
    Unnamed,
    /// An entry that could not be read.
    Unreadable,
}

/// A walk entry as contracts see it.
pub enum WalkEntryView {
    Path(Seq<char>),
    Unnamed,
    Unreadable,
}

impl View for WalkEntry {
    type V = WalkEntryView;

    open spec fn view(&self) -> WalkEntryView {
        match self {
            WalkEntry::Path(p) => WalkEntryView::Path(p@),
            WalkEntry::Unnamed => WalkEntryView::Unnamed,
            WalkEntry::Unreadable => WalkEntryView::Unreadable,
        }
    }
}

/// The views of a vector of walk entries.
pub open spec fn walk_view(v: Seq<WalkEntry>) -> Seq<WalkEntryView> {
    v.map_values(|e: WalkEntry| e@)
}

/// Some pattern is a substring of `path`.
pub open spec fn path_ignored(path: Seq<char>, patterns: Seq<Seq<char>>) -> bool {
    exists|k: int| 0 <= k < patterns.len() && contains_substring(path, #[trigger] patterns[k])
}

/// An entry is ignored when it has a path of which some pattern is a
/// substring.  An entry without a readable path is never ignored.
pub open spec fn entry_ignored(entry: WalkEntryView, patterns: Seq<Seq<char>>) -> bool {
    match entry {
        WalkEntryView::Path(p) => path_ignored(p, patterns),
        _ => false,
    }
}

/// A source is eligible when no entry of the walk over it is ignored.
pub open spec fn eligible(entries: Seq<WalkEntryView>, patterns: Seq<Seq<char>>) -> bool {
    forall|i: int| 0 <= i < entries.len() ==> !entry_ignored(#[trigger] entries[i], patterns)
}

/// The component of `path` that spans the positions from `a` to `b`: a
/// longest run without a separator.
pub open spec fn is_component(path: Seq<char>, a: int, b: int) -> bool {
    &&& 0 <= a <= b <= path.len()
    &&& a == 0 || path[a - 1] == '/'
    &&& b == path.len() || path[b] == '/'
    &&& forall|k: int| a <= k < b ==> path[k] != '/'
}

/// Some component of `path`, the names of its ancestors and its own, has
/// `pattern` as a substring.
pub open spec fn component_matches(path: Seq<char>, pattern: Seq<char>) -> bool {
    exists|a: int, b: int|
        #![trigger path.subrange(a, b)]
        is_component(path, a, b) && contains_substring(path.subrange(a, b), pattern)
}

/// `pattern` holds no separator.
pub open spec fn separator_free(pattern: Seq<char>) -> bool {
    forall|k: int| 0 <= k < pattern.len() ==> pattern[k] != '/'
}

proof fn lemma_run_start(path: Seq<char>, i: int) -> (a: int)
    requires
        0 <= i <= path.len(),
    ensures
        0 <= a <= i,
        a == 0 || path[a - 1] == '/',
        forall|k: int| a <= k < i ==> path[k] != '/',
    decreases i,
{
    if i == 0 || path[i - 1] == '/' {
        i
    } else {
        lemma_run_start(path, i - 1)
    }
}

proof fn lemma_run_end(path: Seq<char>, j: int) -> (b: int)
    requires
        0 <= j <= path.len(),
    ensures
        j <= b <= path.len(),
        b == path.len() || path[b] == '/',
        forall|k: int| j <= k < b ==> path[k] != '/',
    decreases path.len() - j,
{
    if j == path.len() || path[j] == '/' {
        j
    } else {
        lemma_run_end(path, j + 1)
    }
}

/// A pattern that is a substring of a component of the path, the name of
/// the file or of one of its ancestors, is a substring of the path; and a
/// pattern without a separator is a substring of the path only by being a
/// substring of one of its components.
pub proof fn lemma_ignored_iff_component_matches(path: Seq<char>, pattern: Seq<char>)
    ensures
        component_matches(path, pattern) ==> contains_substring(path, pattern),
        separator_free(pattern) ==> (contains_substring(path, pattern) <==> component_matches(
            path,
            pattern,
        )),
{
    if separator_free(pattern) && contains_substring(path, pattern) {
        let i = choose|i: int| occurs_at(path, pattern, i);
        let j = i + pattern.len();
        assert forall|k: int| i <= k < j implies path[k] != '/' by {
            assert(path.subrange(i, j)[k - i] == pattern[k - i]);
        }
        let a = lemma_run_start(path, i);
        let b = lemma_run_end(path, j);
        assert(is_component(path, a, b));
        let c = path.subrange(a, b);
        assert(c.subrange(i - a, i - a + pattern.len()) =~= path.subrange(i, j));
        assert(occurs_at(c, pattern, i - a));
    }
    if component_matches(path, pattern) {
        let (a, b) = choose|a: int, b: int|
            #![trigger path.subrange(a, b)]
            is_component(path, a, b) && contains_substring(path.subrange(a, b), pattern);
        let c = path.subrange(a, b);
        let i = choose|i: int| occurs_at(c, pattern, i);
        assert(path.subrange(a + i, a + i + pattern.len()) =~= c.subrange(i, i + pattern.len()));
        assert(occurs_at(path, pattern, a + i));
    }
}

/// No pattern is a substring of a component of `path`.
pub open spec fn no_component_matches(path: Seq<char>, patterns: Seq<Seq<char>>) -> bool {
    forall|k: int| 0 <= k < patterns.len() ==> !component_matches(path, #[trigger] patterns[k])
}

/// Every pattern is free of separators.
pub open spec fn separator_free_patterns(patterns: Seq<Seq<char>>) -> bool {
    forall|k: int| 0 <= k < patterns.len() ==> separator_free(#[trigger] patterns[k])
}

/// A file whose walk yields its own path is not eligible when some pattern
/// is a substring of its name or of the name of one of its ancestors; and
/// with patterns that hold no separator it is eligible otherwise.
pub proof fn lemma_eligible_iff_no_component_matches(path: Seq<char>, patterns: Seq<Seq<char>>)
    ensures
        eligible(seq![WalkEntryView::Path(path)], patterns) ==> no_component_matches(
            path,
            patterns,
        ),
        separator_free_patterns(patterns) && no_component_matches(path, patterns) ==> eligible(
            seq![WalkEntryView::Path(path)],
            patterns,
        ),
{
    let entries = seq![WalkEntryView::Path(path)];
    assert forall|k: int| 0 <= k < patterns.len() implies (component_matches(
        path,
        #[trigger] patterns[k],
    ) ==> contains_substring(path, patterns[k])) && (separator_free(patterns[k]) ==> (
    contains_substring(path, patterns[k]) <==> component_matches(path, patterns[k]))) by {
        lemma_ignored_iff_component_matches(path, patterns[k]);
    }
    if eligible(entries, patterns) {
        assert(!entry_ignored(entries[0], patterns));
    }
}

/// Whether some pattern is a substring of `path`.
pub fn is_ignored(path: &str, patterns: &Vec<String>) -> (r: bool)
    ensures
        r == path_ignored(path@, strings_view(patterns@)),
{
    let mut k: usize = 0;
    while k < patterns.len()
        invariant
            k <= patterns@.len(),
            forall|j: int|
                0 <= j < k ==> !contains_substring(path@, #[trigger] strings_view(patterns@)[j]),
        decreases patterns@.len() - k,
    {
        if str_contains(path, patterns[k].as_str()) {
            assert(contains_substring(path@, strings_view(patterns@)[k as int]));
            return true;
        }
        k += 1;
    }
    false
}

/// Whether the source whose walk yielded `entries` is eligible for deployment
/// under the ignore patterns of `profile_config`: no entry's path contains a
/// pattern.  Entries that could not be read are passed over.
pub fn should_sync(entries: &Vec<WalkEntry>, profile_config: &ProfileConfig) -> (r: bool)
    ensures
        r == eligible(walk_view(entries@), profile_config@.ignore_patterns),
{
    let patterns = profile_config.ignore_patterns();
    let mut i: usize = 0;
    while i < entries.len()
        invariant
            i <= entries@.len(),
            strings_view(patterns@) == profile_config@.ignore_patterns,
            forall|j: int|
                0 <= j < i ==> !entry_ignored(
                    #[trigger] walk_view(entries@)[j],
                    profile_config@.ignore_patterns,
                ),
        decreases entries@.len() - i,
    {
        match &entries[i] {
            WalkEntry::Path(p) => {
                if is_ignored(p.as_str(), patterns) {
                    assert(entry_ignored(
                        walk_view(entries@)[i as int],
                        profile_config@.ignore_patterns,
                    ));
                    return false;
                }
            },
            _ => {},
        }
        i += 1;
    }
    true
}

} // verus!
