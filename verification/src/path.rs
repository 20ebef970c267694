use vstd::prelude::*;

verus! {

/// Whether two path texts name the same path, as `std::path::Path` compares
/// paths: part by part, so that repeated and trailing separators and inner
/// `.` parts make no difference.
pub uninterp spec fn same_path(a: Seq<char>, b: Seq<char>) -> bool;

/// Calls `==` on `std::path::Path`. Its contract names the result
/// `same_path` of the two texts, and claims of it what the `Eq` impl of
/// `Path` promises for a single comparison: it does not depend on the order
/// of the two paths, equal texts are the same path, and two paths that are
/// the same compare alike with any third one. How the texts are cut
/// into parts follows the path syntax of the target the crate is built for;
/// the contract leaves that syntax unsaid.
#[verifier::external_body]
pub fn paths_eq(a: &str, b: &str) -> (r: bool)
    ensures
        r == same_path(a@, b@),
        r == same_path(b@, a@),
        a@ == b@ ==> r,
        r ==> forall|c: Seq<char>|
            #![trigger same_path(a@, c)]
            #![trigger same_path(b@, c)]
            same_path(b@, c) == same_path(a@, c),
{
    std::path::Path::new(a) == std::path::Path::new(b)
}

} // verus!
