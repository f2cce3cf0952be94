//! Path text: the final component and the parent of a path.

use vstd::prelude::*;

verus! {

/// The final component of `path`, as `std::path::Path::file_name` gives it,
/// or `None` where it gives none.
pub uninterp spec fn path_file_name(path: Seq<char>) -> Option<Seq<char>>;

/// `path` without its final component, as `std::path::Path::parent` gives
/// it, or `None` where it gives none.
pub uninterp spec fn path_parent(path: Seq<char>) -> Option<Seq<char>>;

/// The characters of an optional string.
pub open spec fn text_of(text: Option<String>) -> Option<Seq<char>> {
    match text {
        Some(t) => Some(t@),
        None => None,
    }
}

/// Calls `std::path::Path::file_name` on `path` and copies the component out.
/// The path is text, so the component is text too, and the copy is exact.
///
/// Trusted: the result is the final component that std reports for this
/// path text, named `path_file_name`. Nothing is claimed of what the
/// component is on a given path.
#[verifier::external_body]
pub(crate) fn file_name_of(path: &str) -> (name: Option<String>)
    ensures
        text_of(name) == path_file_name(path@),
{
    let name = std::path::Path::new(path).file_name()?;
    Some(name.to_string_lossy().into_owned())
}

/// Calls `std::path::Path::parent` on `path` and copies the parent out. The
/// path is text, so the parent is text too, and the copy is exact.
///
/// Trusted: the result is the parent that std reports for this path text,
/// named `path_parent`. Nothing is claimed of what the parent is on a given
/// path.
#[verifier::external_body]
pub(crate) fn parent_of(path: &str) -> (parent: Option<String>)
    ensures
        text_of(parent) == path_parent(path@),
{
    let parent = std::path::Path::new(path).parent()?;
    Some(parent.to_string_lossy().into_owned())
}

/// The name under which a path is indexed: its final component, or the
/// empty text where it has none.
pub open spec fn display_name(path: Seq<char>) -> Seq<char> {
    component_or_empty(path_file_name(path))
}

/// An optional component, or the empty text in its place.
pub open spec fn component_or_empty(component: Option<Seq<char>>) -> Seq<char> {
    match component {
        Some(name) => name,
        None => Seq::empty(),
    }
}

/// Turns an optional final component into a name: the component itself, or
/// the empty string where there is none.
pub fn name_or_empty(component: Option<String>) -> (name: String)
    ensures
        name@ == component_or_empty(text_of(component)),
{
    match component {
        Some(name) => name,
        None => String::new(),
    }
}

} // verus!
