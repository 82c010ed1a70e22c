//! Path arithmetic.  Paths are held as strings; how a path is split into
//! components, joined and renamed is left to `std::path`, whose answers are
//! given names here, so that contracts can speak of them.  The answers are
//! those of the platform that the library is built for.
//!
//! The four functions that call `std::path` are trusted: nothing is proved of
//! them, and the rest of the library is proved from what they claim, which is
//! no more than that each answer depends on the arguments alone.

use vstd::prelude::*;

verus! {

/// What `std::path::Path::join` gives for `base` and `relative`.
pub uninterp spec fn joined_path(base: Seq<char>, relative: Seq<char>) -> Seq<char>;

/// What `std::path::Path::with_extension` gives for `path` and `extension`.
pub uninterp spec fn path_with_extension(path: Seq<char>, extension: Seq<char>) -> Seq<char>;

/// What `std::path::Path::strip_prefix` gives for `path` and `base`: the rest
/// of `path` below `base`, or nothing where `path` does not start with `base`.
pub uninterp spec fn path_below(path: Seq<char>, base: Seq<char>) -> Option<Seq<char>>;

/// What `std::path::Path::parent` gives for `path`.
pub uninterp spec fn parent_path(path: Seq<char>) -> Option<Seq<char>>;

/// The extension that a backup carries in place of the file's own.
pub open spec fn backup_extension() -> Seq<char> {
    "bak"@
}

/// The path at which a file at `path` is backed up before it is overwritten.
pub open spec fn backup_path_of(path: Seq<char>) -> Seq<char> {
    path_with_extension(path, backup_extension())
}

/// Calls `std::path::Path::join`.  Trusted: the result is the joined path as
/// text, a function of the two arguments.  Both arguments are valid UTF-8, so
/// is the joined path, and the text loses nothing.
#[verifier::external_body]
pub(crate) fn join_path(base: &str, relative: &str) -> (r: String)
    ensures
        r@ == joined_path(base@, relative@),
{
    std::path::Path::new(base).join(relative).to_string_lossy().into_owned()
}

/// An extension holds no path separator.
pub open spec fn plain_extension(extension: Seq<char>) -> bool {
    forall|k: int| 0 <= k < extension.len() ==> extension[k] != '/' && extension[k] != '\\'
}

/// Calls `std::path::Path::with_extension`, which panics on an extension
/// with a path separator.  Trusted: the result is the renamed path as text, a
/// function of the two arguments.
#[verifier::external_body]
pub(crate) fn with_extension(path: &str, extension: &str) -> (r: String)
    requires
        plain_extension(extension@),
    ensures
        r@ == path_with_extension(path@, extension@),
{
    std::path::Path::new(path).with_extension(extension).to_string_lossy().into_owned()
}

/// Calls `std::path::Path::strip_prefix`.  Trusted: the result is the rest of
/// the path as text, or `None` where `strip_prefix` reports that `base` is no
/// prefix of `path`; a function of the two arguments.
#[verifier::external_body]
pub(crate) fn strip_prefix(path: &str, base: &str) -> (r: Option<String>)
    ensures
        match r {
            Some(rest) => path_below(path@, base@) == Some(rest@),
            None => path_below(path@, base@) is None,
        },
{
    match std::path::Path::new(path).strip_prefix(base) {
        Ok(rest) => Some(rest.to_string_lossy().into_owned()),
        Err(_) => None,
    }
}

/// Calls `std::path::Path::parent`.  Trusted: the result is the parent as
/// text, or `None` where the path has none; a function of the argument.
#[verifier::external_body]
pub(crate) fn parent(path: &str) -> (r: Option<String>)
    ensures
        match r {
            Some(p) => parent_path(path@) == Some(p@),
            None => parent_path(path@) is None,
        },
{
    match std::path::Path::new(path).parent() {
        Some(p) => Some(p.to_string_lossy().into_owned()),
        None => None,
    }
}

/// The path at which a file at `path` is backed up: `path` with its extension
/// replaced by `bak`.
pub fn backup_path(path: &str) -> (r: String)
    ensures
        r@ == backup_path_of(path@),
{
    proof {
        reveal_strlit("bak");
    }
    with_extension(path, "bak")
}

} // verus!
