//! Equality of two texts up to the case of their scalars.

use vstd::prelude::*;
use vstd::std_specs::iter::IteratorSpec;
use crate::casing::{lower_of, to_lower};

verus! {

/// Two texts are equal ignoring case when they are equally long and agree,
/// position by position, on the lower-case form of their scalars.
pub open spec fn ci_equal(x: Seq<char>, y: Seq<char>) -> bool {
    &&& x.len() == y.len()
    &&& forall|i: int| 0 <= i < x.len() ==> lower_of(#[trigger] x[i]) == lower_of(y[i])
}

/// Tells whether `x` and `y` are equal ignoring case.
///
/// The two texts are walked in step and the walk stops at the first pair that
/// differs, or as soon as one text ends before the other.
pub fn compare_ci(x: &str, y: &str) -> (r: bool)
    ensures
        r == ci_equal(x@, y@),
{
    let mut xs = x.chars();
    let mut ys = y.chars();
    let ghost mut i: int = 0;
    loop
        invariant
            0 <= i <= x@.len(),
            i <= y@.len(),
            xs.remaining() == x@.skip(i),
            ys.remaining() == y@.skip(i),
            forall|j: int| 0 <= j < i ==> lower_of(#[trigger] x@[j]) == lower_of(y@[j]),
        decreases x@.len() - i,
    {
        let a = xs.next();
        let b = ys.next();
        match (a, b) {
            (Some(c), Some(d)) => {
                if to_lower(c) != to_lower(d) {
                    return false;
                }
                proof {
                    i = i + 1;
                }
            },
            (None, None) => {
                return true;
            },
            _ => {
                return false;
            },
        }
    }
}

/// Every text equals itself ignoring case.
pub proof fn lemma_ci_equal_reflexive(x: Seq<char>)
    ensures
        ci_equal(x, x),
{
}

/// Equality ignoring case does not depend on the order of its arguments.
pub proof fn lemma_ci_equal_symmetric(x: Seq<char>, y: Seq<char>)
    ensures
        ci_equal(x, y) == ci_equal(y, x),
{
}

} // verus!
