use vstd::prelude::*;

verus! {

/// Whether a path, given as text, is relative on this platform.
pub uninterp spec fn path_is_relative(p: Seq<char>) -> bool;

/// The path that `rel` names when it is read from `base`.
pub uninterp spec fn path_pushed(base: Seq<char>, rel: Seq<char>) -> Seq<char>;

/// Relies on std::path::Path::is_relative: whether the path has no root (and,
/// where the platform has them, no prefix).
#[verifier::external_body]
pub(crate) fn is_relative(p: &String) -> (r: bool)
    ensures
        r == path_is_relative(p@),
{
    std::path::Path::new(p.as_str()).is_relative()
}

/// Relies on std::path::PathBuf::push: `rel` appended to `base` with a
/// separator between them.
#[verifier::external_body]
pub(crate) fn push(base: &String, rel: &String) -> (r: String)
    ensures
        r@ == path_pushed(base@, rel@),
{
    let mut joined = std::path::PathBuf::from(base.as_str());
    joined.push(rel.as_str());
    joined.to_string_lossy().into_owned()
}

} // verus!
