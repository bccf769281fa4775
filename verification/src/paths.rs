//! Filesystem paths, held as their text. What the standard library's `Path`
//! computes of a path is named here and obtained by calling it.

use vstd::prelude::*;

verus! {

/// The text of the final component of a path, as `Path::file_name` gives it.
pub uninterp spec fn path_file_name(p: Seq<char>) -> Option<Seq<char>>;

/// The text of a path without its final component, as `Path::parent` gives it.
pub uninterp spec fn path_parent(p: Seq<char>) -> Option<Seq<char>>;

/// The text of `base` joined with `tail`, as `Path::join` gives it.
pub uninterp spec fn path_join(base: Seq<char>, tail: Seq<char>) -> Seq<char>;

/// Whether two paths are equal component by component, as `==` on `Path` decides.
pub uninterp spec fn path_eq(a: Seq<char>, b: Seq<char>) -> bool;

/// The debug rendering of a path (`{:?}` on `Path`): quoted and escaped.
pub uninterp spec fn path_debug(p: Seq<char>) -> Seq<char>;

/// The text of a path rebuilt from its components, as collecting
/// `Path::components` into a `PathBuf` gives it. Two paths are equal as
/// `Path`s exactly when their components are, so this text stands for the
/// path when paths are compared.
pub uninterp spec fn path_normal(p: Seq<char>) -> Seq<char>;

/// Rebuilds a path from `Path::components`; the result's text is named
/// `path_normal`.
#[verifier::external_body]
pub(crate) fn normalize_path(p: &str) -> (r: String)
    ensures
        r@ == path_normal(p@),
{
    std::path::Path::new(p).components().collect::<std::path::PathBuf>().to_string_lossy().into_owned()
}

/// The text of an optional string.
pub open spec fn opt_text(o: Option<String>) -> Option<Seq<char>> {
    match o {
        Some(s) => Some(s@),
        None => None,
    }
}

/// Calls `Path::file_name`; the result's text is named `path_file_name`.
#[verifier::external_body]
pub(crate) fn file_name_of(p: &str) -> (r: Option<String>)
    ensures
        opt_text(r) == path_file_name(p@),
{
    match std::path::Path::new(p).file_name() {
        Some(n) => Some(n.to_string_lossy().into_owned()),
        None => None,
    }
}

/// Calls `Path::parent`; the result's text is named `path_parent`.
#[verifier::external_body]
pub(crate) fn parent_of(p: &str) -> (r: Option<String>)
    ensures
        opt_text(r) == path_parent(p@),
{
    match std::path::Path::new(p).parent() {
        Some(q) => Some(q.to_string_lossy().into_owned()),
        None => None,
    }
}

/// Calls `Path::join`; the result's text is named `path_join`.
#[verifier::external_body]
pub(crate) fn join_paths(base: &str, tail: &str) -> (r: String)
    ensures
        r@ == path_join(base@, tail@),
{
    std::path::Path::new(base).join(tail).to_string_lossy().into_owned()
}

/// Calls `==` on two `Path`s; the result is named `path_eq`. Path equality
/// is an equivalence (`Path` is `Eq`), so a path equals itself.
#[verifier::external_body]
pub(crate) fn paths_equal(a: &str, b: &str) -> (r: bool)
    ensures
        r == path_eq(a@, b@),
        a@ == b@ ==> r,
{
    std::path::Path::new(a) == std::path::Path::new(b)
}

/// Formats a `Path` with `{:?}`; the result is named `path_debug`.
#[verifier::external_body]
pub(crate) fn debug_path(p: &str) -> (r: String)
    ensures
        r@ == path_debug(p@),
{
    format!("{:?}", std::path::Path::new(p))
}

} // verus!
