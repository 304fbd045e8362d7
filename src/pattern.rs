//! Shell-style name patterns, matched by the `glob` crate.
use vstd::prelude::*;

verus! {

/// Whether `pattern` compiles as a glob pattern.
pub uninterp spec fn glob_valid(pattern: Seq<char>) -> bool;

/// Whether `name` matches the glob `pattern` (case-sensitive, default options).
pub uninterp spec fn glob_matches(pattern: Seq<char>, name: Seq<char>) -> bool;

/// Relies on glob::Pattern::new: whether it fails depends on the pattern text alone.
#[verifier::external_body]
pub(crate) fn glob_compiles(pattern: &str) -> (r: bool)
    ensures
        r == glob_valid(pattern@),
{
    glob::Pattern::new(pattern).is_ok()
}

/// Relies on glob::Pattern::matches (default options) on the pattern compiled
/// by glob::Pattern::new: the answer depends on the two texts alone.
#[verifier::external_body]
pub(crate) fn glob_match(pattern: &str, name: &str) -> (r: bool)
    requires
        glob_valid(pattern@),
    ensures
        r == glob_matches(pattern@, name@),
{
    match glob::Pattern::new(pattern) {
        Ok(p) => p.matches(name),
        Err(_) => false,
    }
}

} // verus!
