//! File-system paths, held as text.

use vstd::prelude::*;

verus! {

/// The text of the path that results when `name` is adjoined to `base` by the
/// path rules of the platform the library is built for.
pub uninterp spec fn joined(base: Seq<char>, name: Seq<char>) -> Seq<char>;

/// Adjoins `name` to `base` with `std::path::Path::join`.
///
/// Trusted: the result is the text of the path that `Path::join` builds, and
/// on one platform it is determined by the two texts alone. Both arguments are
/// valid Unicode, and joining only puts them together around a separator or
/// keeps `name` alone, so turning the result back into text loses nothing.
#[verifier::external_body]
pub(crate) fn join(base: &str, name: &str) -> (path: String)
    ensures
        path@ == joined(base@, name@),
{
    std::path::Path::new(base).join(name).to_string_lossy().into_owned()
}

} // verus!
