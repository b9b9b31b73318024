//! File-system paths as text. The rules by which a path is taken apart and
//! put together are those of `std::path` on the platform that the library is
//! built for.

use vstd::prelude::*;

verus! {

/// The path that `std::path::Path::join` makes of `base` and `rest`.
pub uninterp spec fn path_join(base: Seq<char>, rest: Seq<char>) -> Seq<char>;

/// The final component of `path` as `std::path::Path::file_name` gives it, or
/// `None` where it gives none.
pub uninterp spec fn path_file_name(path: Seq<char>) -> Option<Seq<char>>;

/// `path` without its final component as `std::path::Path::parent` gives it,
/// or `None` where it gives none.
pub uninterp spec fn path_parent(path: Seq<char>) -> Option<Seq<char>>;

/// Calls `std::path::Path::join`. Both arguments are text, so the joined path
/// is text too, and is handed back as it is.
#[verifier::external_body]
pub(crate) fn join(base: &str, rest: &str) -> (joined: String)
    ensures
        joined@ == path_join(base@, rest@),
{
    std::path::Path::new(base).join(rest).to_string_lossy().into_owned()
}

/// Calls `std::path::Path::file_name`. The component is a piece of `path`,
/// which is text, and is handed back as it is.
#[verifier::external_body]
pub(crate) fn file_name(path: &str) -> (name: Option<String>)
    ensures
        name.deep_view() == path_file_name(path@),
{
    std::path::Path::new(path).file_name().map(|n| n.to_string_lossy().into_owned())
}

/// Calls `std::path::Path::parent`. The parent is a piece of `path`, which is
/// text, and is handed back as it is.
#[verifier::external_body]
pub(crate) fn parent(path: &str) -> (dir: Option<String>)
    ensures
        dir.deep_view() == path_parent(path@),
{
    std::path::Path::new(path).parent().map(|p| p.to_string_lossy().into_owned())
}

} // verus!
