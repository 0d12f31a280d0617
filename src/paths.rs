//! File-system paths, held as text, and the questions the library asks the
//! file system about them.
//!
//! The named results below follow the path syntax of the target the library
//! is built for (its separator and root rules), and otherwise depend on the
//! texts alone.

use vstd::prelude::*;

verus! {

/// The path `part` appended to `base`, as `std::path::Path::join` forms it.
pub uninterp spec fn path_join(base: Seq<char>, part: Seq<char>) -> Seq<char>;

/// The last component of a path, as `std::path::Path::file_name` gives it.
pub uninterp spec fn path_file_name(p: Seq<char>) -> Option<Seq<char>>;

/// The last component of a path, as the last item of
/// `std::path::Path::iter` gives it.
pub uninterp spec fn path_last_component(p: Seq<char>) -> Option<Seq<char>>;

/// The parent of a path, as `std::path::Path::parent` gives it.
pub uninterp spec fn path_parent(p: Seq<char>) -> Option<Seq<char>>;

/// Relies on `std::path::Path::join`: the result depends on the two texts
/// alone.
#[verifier::external_body]
pub(crate) fn join(base: &str, part: &str) -> (r: String)
    ensures
        r@ == path_join(base@, part@),
{
    std::path::Path::new(base).join(part).to_string_lossy().into_owned()
}

/// Relies on `std::path::Path::file_name`: the result depends on the text
/// alone.
#[verifier::external_body]
pub(crate) fn file_name(p: &str) -> (r: Option<String>)
    ensures
        r is Some <==> path_file_name(p@) is Some,
        r is Some ==> r->Some_0@ == path_file_name(p@)->Some_0,
{
    std::path::Path::new(p).file_name().map(|n| n.to_string_lossy().into_owned())
}

/// Relies on `std::path::Path::iter`: the last component depends on the
/// text alone.
#[verifier::external_body]
pub(crate) fn last_component(p: &str) -> (r: Option<String>)
    ensures
        r is Some <==> path_last_component(p@) is Some,
        r is Some ==> r->Some_0@ == path_last_component(p@)->Some_0,
{
    std::path::Path::new(p).iter().last().map(|n| n.to_string_lossy().into_owned())
}

/// Relies on `std::path::Path::parent`: the result depends on the text
/// alone.
#[verifier::external_body]
pub(crate) fn parent(p: &str) -> (r: Option<String>)
    ensures
        r is Some <==> path_parent(p@) is Some,
        r is Some ==> r->Some_0@ == path_parent(p@)->Some_0,
{
    std::path::Path::new(p).parent().map(|n| n.to_string_lossy().into_owned())
}

/// Relies on `std::path::Path::is_dir`: whether a directory is there now;
/// nothing is promised of the answer.
#[verifier::external_body]
pub(crate) fn is_dir(p: &str) -> (r: bool) {
    std::path::Path::new(p).is_dir()
}

/// Relies on `std::path::Path::is_file`: whether a regular file is there
/// now; nothing is promised of the answer.
#[verifier::external_body]
pub(crate) fn is_file(p: &str) -> (r: bool) {
    std::path::Path::new(p).is_file()
}

} // verus!
