//! Filesystem paths, carried as their text.
//!
//! The library keeps every path as a `String`; joining and taking the parent are
//! done by `std::path::Path`, whose results are named below.

use vstd::prelude::*;

verus! {

/// What `std::path::Path::join` gives for `base` joined with `component`, as text
/// (the separator is the target platform's).
pub uninterp spec fn joined_path(base: Seq<char>, component: Seq<char>) -> Seq<char>;

/// What `std::path::Path::parent` gives for `path`, as text; `None` where the path
/// ends in a root or prefix, or is empty.
pub uninterp spec fn parent_path(path: Seq<char>) -> Option<Seq<char>>;

/// `std::path::Path::join`: the result is `joined_path` of the two texts.  Both
/// arguments are UTF-8, so the joined path is too and its text is carried over
/// unchanged.
#[verifier::external_body]
pub fn path_join(base: &str, component: &str) -> (res: String)
    ensures
        res@ == joined_path(base@, component@),
{
    std::path::Path::new(base).join(component).to_string_lossy().into_owned()
}

/// `std::path::Path::parent`: the result is `parent_path` of the text.  The parent
/// of a UTF-8 path is a prefix of it, hence UTF-8 too.
#[verifier::external_body]
pub fn path_parent(path: &str) -> (res: Option<String>)
    ensures
        match res {
            Some(p) => parent_path(path@) == Some(p@),
            None => parent_path(path@) is None,
        },
{
    match std::path::Path::new(path).parent() {
        Some(p) => Some(p.to_string_lossy().into_owned()),
        None => None,
    }
}

} // verus!
