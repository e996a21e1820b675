//! File system paths as texts: the comparisons and joins of
//! `std::path::Path`, whose component rules the library names rather than
//! restates.

use vstd::prelude::*;

verus! {

/// Whether `std::path::Path::starts_with` holds of two path texts: the
/// second is a prefix of the first, whole components at a time.
pub uninterp spec fn spec_path_starts_with(path: Seq<char>, base: Seq<char>) -> bool;

/// Whether two path texts are equal as `std::path::Path` values, that is
/// component by component.
pub uninterp spec fn spec_path_eq(a: Seq<char>, b: Seq<char>) -> bool;

/// Calls `Path::starts_with`. The result is named: a function of the two
/// paths alone, whose component rules are not restated here.
#[verifier::external_body]
pub fn path_starts_with(path: &str, base: &str) -> (res: bool)
    ensures
        res == spec_path_starts_with(path@, base@),
{
    std::path::Path::new(path).starts_with(std::path::Path::new(base))
}

/// Calls `Path::eq`. The result is named; besides, the same text is the
/// same path.
#[verifier::external_body]
pub fn path_eq(a: &str, b: &str) -> (res: bool)
    ensures
        res == spec_path_eq(a@, b@),
        a@ == b@ ==> res,
{
    std::path::Path::new(a) == std::path::Path::new(b)
}

/// What `Path::join` gives: `rest` appended to `base` as a further
/// component (or in its place when `rest` is absolute).
pub uninterp spec fn spec_path_join(base: Seq<char>, rest: Seq<char>) -> Seq<char>;

/// Calls `Path::join` on two path texts (paths made from `str`, so the
/// result is valid UTF-8). The result is named.
#[verifier::external_body]
pub fn path_join(base: &str, rest: &str) -> (res: String)
    ensures
        res@ == spec_path_join(base@, rest@),
{
    std::path::Path::new(base).join(rest).to_string_lossy().into_owned()
}

} // verus!
