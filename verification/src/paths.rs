//! File system paths, as `std::path::Path` reads them.

use vstd::prelude::*;

verus! {

/// The extension of the file a path names, as `Path::extension` finds it:
/// what follows the last `.` of the final component, if that component has
/// a `.` not at its start.
pub uninterp spec fn path_extension_of(p: Seq<char>) -> Option<Seq<char>>;

/// The extension of the file `p` names.
///
/// Trusted: `Path::extension`, read back as text. Its result depends on
/// `p` alone and is named `path_extension_of`; as its documentation says,
/// it is the part of the file name after the final `.`, so it holds no `.`.
#[verifier::external_body]
pub(crate) fn path_extension(p: &str) -> (r: Option<String>)
    ensures
        r matches Some(e) ==> path_extension_of(p@) == Some(e@),
        r is None ==> path_extension_of(p@) is None,
        r matches Some(e) ==> !e@.contains('.'),
{
    std::path::Path::new(p).extension().and_then(|e| e.to_str()).map(|e| e.to_owned())
}

/// The path `p` without its final component, as `Path::parent` finds it;
/// none for a root or an empty path.
pub uninterp spec fn path_parent_of(p: Seq<char>) -> Option<Seq<char>>;

/// The path `p` without its final component.
///
/// Trusted: `Path::parent`, read back as text. Its result depends on `p`
/// alone and is named `path_parent_of`.
#[verifier::external_body]
pub(crate) fn path_parent(p: &str) -> (r: Option<String>)
    ensures
        r matches Some(q) ==> path_parent_of(p@) == Some(q@),
        r is None ==> path_parent_of(p@) is None,
{
    std::path::Path::new(p).parent().and_then(|q| q.to_str()).map(|q| q.to_owned())
}

/// Whether the last components of `p` are those of `child`, as
/// `Path::ends_with` decides it.
pub uninterp spec fn path_ends_with_of(p: Seq<char>, child: Seq<char>) -> bool;

/// Whether the last components of `p` are those of `child`.
///
/// Trusted: `Path::ends_with`. Its result depends on `p` and `child` alone
/// and is named `path_ends_with_of`.
#[verifier::external_body]
pub(crate) fn path_ends_with(p: &str, child: &str) -> (r: bool)
    ensures
        r == path_ends_with_of(p@, child@),
{
    std::path::Path::new(p).ends_with(child)
}

/// The parent of the parent of `p`, if it has one.
pub open spec fn grandparent_of(p: Seq<char>) -> Option<Seq<char>> {
    match path_parent_of(p) {
        Some(q) => path_parent_of(q),
        None => None,
    }
}

/// The parent of the parent of `p`, if it has one.
pub fn grandparent(p: &str) -> (r: Option<String>)
    ensures
        r matches Some(q) ==> grandparent_of(p@) == Some(q@),
        r is None ==> grandparent_of(p@) is None,
{
    match path_parent(p) {
        Some(q) => path_parent(q.as_str()),
        None => None,
    }
}

} // verus!
