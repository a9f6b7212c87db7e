//! Path handling. The component rules of paths are those of `std::path`;
//! the trusted items below give them names, and the library composes them.

use vstd::prelude::*;
use std::path::Path;

verus! {

/// The final component's name without its extension (`Path::file_stem`).
pub uninterp spec fn spec_path_file_stem(p: Seq<char>) -> Option<Seq<char>>;

/// The extension of the final component (`Path::extension`).
pub uninterp spec fn spec_path_extension(p: Seq<char>) -> Option<Seq<char>>;

/// The path with its final component replaced (`PathBuf::set_file_name`).
pub uninterp spec fn spec_path_with_file_name(p: Seq<char>, name: Seq<char>) -> Seq<char>;

/// The path without its final component (`Path::parent`).
pub uninterp spec fn spec_path_parent(p: Seq<char>) -> Option<Seq<char>>;

/// The path with `name` appended as new components (`Path::join`).
pub uninterp spec fn spec_path_join(p: Seq<char>, name: Seq<char>) -> Seq<char>;

/// Whether `base` is a component-wise prefix of `p` (`Path::starts_with`).
pub uninterp spec fn spec_path_starts_with(p: Seq<char>, base: Seq<char>) -> bool;

/// `Path::file_stem`, for a path given as UTF-8 text; its result is the
/// named value, as text.
#[verifier::external_body]
pub(crate) fn path_file_stem(p: &str) -> (r: Option<String>)
    ensures
        r is Some == spec_path_file_stem(p@) is Some,
        r is Some ==> r->0@ == spec_path_file_stem(p@)->0,
{
    Path::new(p).file_stem().and_then(|s| s.to_str()).map(|s| s.to_string())
}

/// `Path::extension`, for a path given as UTF-8 text; its result is the named
/// value, as text.
#[verifier::external_body]
pub(crate) fn path_extension(p: &str) -> (r: Option<String>)
    ensures
        r is Some == spec_path_extension(p@) is Some,
        r is Some ==> r->0@ == spec_path_extension(p@)->0,
{
    Path::new(p).extension().and_then(|s| s.to_str()).map(|s| s.to_string())
}

/// `PathBuf::set_file_name` on a copy of `p`; the result is the named value.
#[verifier::external_body]
pub(crate) fn path_with_file_name(p: &str, name: &str) -> (r: String)
    ensures
        r@ == spec_path_with_file_name(p@, name@),
{
    let mut buf = std::path::PathBuf::from(p);
    buf.set_file_name(name);
    buf.to_string_lossy().to_string()
}

/// `Path::parent`, for a path given as UTF-8 text; its result is the named
/// value, as text.
#[verifier::external_body]
pub(crate) fn path_parent(p: &str) -> (r: Option<String>)
    ensures
        r is Some == spec_path_parent(p@) is Some,
        r is Some ==> r->0@ == spec_path_parent(p@)->0,
{
    Path::new(p).parent().map(|q| q.to_string_lossy().to_string())
}

/// `Path::join`; the result is the named value, as text.
#[verifier::external_body]
pub(crate) fn path_join(p: &str, name: &str) -> (r: String)
    ensures
        r@ == spec_path_join(p@, name@),
{
    Path::new(p).join(name).to_string_lossy().to_string()
}

/// `Path::starts_with`; the result is the named value.
#[verifier::external_body]
pub(crate) fn path_starts_with(p: &str, base: &str) -> (r: bool)
    ensures
        r == spec_path_starts_with(p@, base@),
{
    Path::new(p).starts_with(base)
}

/// The final component of a path (`Path::file_name`), lossily as text.
pub uninterp spec fn spec_path_file_name(p: Seq<char>) -> Option<Seq<char>>;

/// Component-wise equality of two paths (`Path == Path`).
pub uninterp spec fn spec_path_eq(a: Seq<char>, b: Seq<char>) -> bool;

/// `Path::file_name`, converted lossily to text; its result is the named value.
#[verifier::external_body]
pub(crate) fn path_file_name(p: &str) -> (r: Option<String>)
    ensures
        r is Some == spec_path_file_name(p@) is Some,
        r is Some ==> r->0@ == spec_path_file_name(p@)->0,
{
    Path::new(p).file_name().map(|s| s.to_string_lossy().to_string())
}

/// `<Path as PartialEq>::eq`: the paths have the same components.
#[verifier::external_body]
pub(crate) fn paths_equal(a: &str, b: &str) -> (r: bool)
    ensures
        r == spec_path_eq(a@, b@),
{
    Path::new(a) == Path::new(b)
}

} // verus!
