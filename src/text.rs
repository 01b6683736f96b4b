//! Small string facts shared by the other modules.
use vstd::prelude::*;

verus! {

/// `s` ends with `suffix`.
pub open spec fn has_suffix(s: Seq<char>, suffix: Seq<char>) -> bool {
    suffix.len() <= s.len() && s.subrange(s.len() - suffix.len(), s.len() as int) == suffix
}

/// Relies on `str::ends_with`: true exactly when `suffix` is a suffix of `s`.
#[verifier::external_body]
pub(crate) fn ends_with(s: &str, suffix: &str) -> (r: bool)
    ensures
        r == has_suffix(s@, suffix@),
{
    s.ends_with(suffix)
}

/// Relies on `str::strip_prefix`: the rest of `s` after a leading `prefix`, or
/// `None` when `s` does not start with it.
#[verifier::external_body]
pub(crate) fn strip_prefix<'a>(s: &'a str, prefix: &str) -> (r: Option<&'a str>)
    ensures
        match r {
            Some(rest) => s@ == prefix@ + rest@,
            None => !(prefix@.len() <= s@.len() && s@.subrange(0, prefix@.len() as int) == prefix@),
        },
{
    s.strip_prefix(prefix)
}

} // verus!
