//! The lower-case form of a single Unicode scalar value, and of a whole text.

use vstd::prelude::*;

verus! {

/// The lower-case form of `c`: the first scalar of the lowercase mapping that
/// the standard library's `char::to_lowercase` yields for `c`.
///
/// The mapping is the Unicode one and is not spelled out here; contracts speak
/// of it only through this name.
pub uninterp spec fn lower_of(c: char) -> char;

/// The lower-case form of a whole text, scalar by scalar.
pub open spec fn lowered(s: Seq<char>) -> Seq<char> {
    Seq::new(s.len(), |i: int| lower_of(s[i]))
}

/// Trusted: calls `char::to_lowercase` and pulls the first scalar of the
/// iterator it returns. The standard library documents that this iterator
/// yields one or more scalars, so the pull always gives `Some`, and that its
/// items depend on `c` alone.
#[verifier::external_body]
fn first_lowercase(c: char) -> (r: Option<char>)
    ensures
        r == Some(lower_of(c)),
{
    c.to_lowercase().next()
}

/// Lower-cases one scalar value.
pub fn to_lower(c: char) -> (r: char)
    ensures
        r == lower_of(c),
{
    match first_lowercase(c) {
        Some(l) => l,
        None => c,
    }
}

} // verus!
