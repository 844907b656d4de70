//! File system paths, as `std::path` reads them. A path is carried as its
//! text; what `std::path` makes of that text depends on the path syntax of the
//! target the crate is built for, and is named here rather than restated.

use vstd::prelude::*;

verus! {

/// Whether `std::path` considers two path texts the same path (it compares
/// them component by component).
pub uninterp spec fn std_path_eq(a: Seq<char>, b: Seq<char>) -> bool;

/// The extension `std::path::Path::extension` finds in a path text.
pub uninterp spec fn std_path_extension(p: Seq<char>) -> Option<Seq<char>>;

/// The components `std::path::Path::components` finds in a path text, each
/// given by its text.
pub uninterp spec fn std_path_components(p: Seq<char>) -> Seq<Seq<char>>;

/// The parent `std::path::Path::parent` finds for a path text.
pub uninterp spec fn std_path_parent(p: Seq<char>) -> Option<Seq<char>>;

/// The path `std::path::Path::join` builds from a base and a further part.
pub uninterp spec fn std_path_join(base: Seq<char>, part: Seq<char>) -> Seq<char>;

/// `PartialEq` of `std::path::Path`. The contract claims that the answer is
/// the one `std_path_eq` names, and that a text is the same path as itself.
#[verifier::external_body]
pub(crate) fn path_eq(a: &str, b: &str) -> (r: bool)
    ensures
        r == std_path_eq(a@, b@),
        a@ == b@ ==> r,
{
    std::path::Path::new(a) == std::path::Path::new(b)
}

/// `std::path::Path::extension`, with the extension handed back as text (the
/// extension of a path given as text is text itself). The contract claims
/// only that the result is the one `std_path_extension` names.
#[verifier::external_body]
pub(crate) fn path_extension(p: &str) -> (r: Option<String>)
    ensures
        r matches Some(e) ==> std_path_extension(p@) == Some(e@),
        r is None ==> std_path_extension(p@) is None,
{
    match std::path::Path::new(p).extension() {
        Some(e) => Some(e.to_string_lossy().into_owned()),
        None => None,
    }
}

/// `std::path::Path::components`, each component handed back as its text.
/// The contract claims only that the texts are those `std_path_components`
/// names, in order.
#[verifier::external_body]
pub(crate) fn path_components(p: &str) -> (r: Vec<String>)
    ensures
        r@.len() == std_path_components(p@).len(),
        forall|i: int| 0 <= i < r@.len() ==> #[trigger] r@[i]@ == std_path_components(p@)[i],
{
    std::path::Path::new(p).components().map(|c| c.as_os_str().to_string_lossy().into_owned()).collect()
}

/// `std::path::Path::parent`, handed back as text. The contract claims only
/// that the result is the one `std_path_parent` names.
#[verifier::external_body]
pub(crate) fn path_parent(p: &str) -> (r: Option<String>)
    ensures
        r matches Some(q) ==> std_path_parent(p@) == Some(q@),
        r is None ==> std_path_parent(p@) is None,
{
    match std::path::Path::new(p).parent() {
        Some(q) => Some(q.to_string_lossy().into_owned()),
        None => None,
    }
}

/// `std::path::Path::join`, handed back as text. The contract claims only
/// that the result is the one `std_path_join` names.
#[verifier::external_body]
pub(crate) fn path_join(base: &str, part: &str) -> (r: String)
    ensures
        r@ == std_path_join(base@, part@),
{
    std::path::Path::new(base).join(part).to_string_lossy().into_owned()
}

} // verus!
