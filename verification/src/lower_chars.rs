//! A lazy lower-casing view over a borrowed text.
//!
//! A view is a forward-only cursor: it is either *active*, with source
//! scalars still to be read, or *exhausted*, and once exhausted it stays so.

use std::str::Chars;
use vstd::prelude::*;
use vstd::std_specs::iter::IteratorSpec;
use vstd::string::{next_post, spec_iter};
use crate::casing::{lower_of, lowered, to_lower};

verus! {

/// What is left of `s` once `n` scalars have been read from its front; nothing
/// is left once `n` reaches the length of `s`.
spec fn rest_after(s: Seq<char>, n: nat) -> Seq<char> {
    if n <= s.len() {
        s.skip(n as int)
    } else {
        Seq::empty()
    }
}

/// One pull on a view that has `rest` left to read: what the pull hands out,
/// and what is left to read afterwards.
pub open spec fn step(rest: Seq<char>) -> (Option<char>, Seq<char>) {
    if rest.len() == 0 {
        (None, rest)
    } else {
        (Some(lower_of(rest[0])), rest.drop_first())
    }
}

/// The scalars that successive pulls hand out, up to the first `None`, on a
/// view that has `rest` left to read.
pub open spec fn yields(rest: Seq<char>) -> Seq<char>
    decreases rest.len(),
{
    match step(rest).0 {
        None => Seq::empty(),
        Some(c) => seq![c] + yields(step(rest).1),
    }
}

/// `now` is what `start` has become after `n` pulls.
spec fn pulled<'a>(start: Chars<'a>, now: Chars<'a>, n: nat) -> bool
    decreases n,
{
    if n == 0 {
        now == start
    } else {
        exists|mid: Chars<'a>, got: Option<char>|
            pulled(start, mid, (n - 1) as nat) && #[trigger] next_post(&mid, &now, got)
    }
}

/// After `n` pulls a scalar iterator has exactly the scalars left that follow
/// the first `n` of those it started with.
proof fn lemma_pulled_remaining<'a>(start: Chars<'a>, now: Chars<'a>, n: nat)
    requires
        pulled(start, now, n),
    ensures
        IteratorSpec::remaining(&now) == rest_after(IteratorSpec::remaining(&start), n),
    decreases n,
{
    if n > 0 {
        let (mid, got): (Chars<'a>, Option<char>) = choose|mid: Chars<'a>, got: Option<char>|
            pulled(start, mid, (n - 1) as nat) && #[trigger] next_post(&mid, &now, got);
        lemma_pulled_remaining(start, mid, (n - 1) as nat);
    }
}

/// A forward-only cursor over a borrowed text that hands out the lower-case
/// form of one scalar per pull. It owns no text of its own.
///
/// Its view is the part of the source text that it has not read yet.
pub struct LowerChars<'a> {
    chars: Chars<'a>,
    source: Ghost<&'a str>,
    taken: Ghost<nat>,
}

impl<'a> View for LowerChars<'a> {
    type V = Seq<char>;

    /// The source scalars that have not been read yet.
    closed spec fn view(&self) -> Seq<char> {
        rest_after(self.source@@, self.taken@)
    }
}

impl<'a> LowerChars<'a> {
    /// The cursor stands in its source exactly as far as the pulls made on
    /// it so far have brought it. Every view made by [`lower`] is well formed,
    /// and pulling keeps it so.
    pub closed spec fn wf(&self) -> bool {
        pulled(spec_iter(self.source@), self.chars, self.taken@)
    }

    /// Whether every source scalar has been read.
    pub open spec fn exhausted(&self) -> bool {
        self@.len() == 0
    }

    /// Pulls the lower-case form of the next source scalar and moves past it,
    /// or gives `None` once the source is used up.
    pub fn next(&mut self) -> (r: Option<char>)
        requires
            old(self).wf(),
        ensures
            final(self).wf(),
            (r, final(self)@) == step(old(self)@),
            r.is_none() == old(self).exhausted(),
            final(self).exhausted() == (old(self)@.len() <= 1),
    {
        proof {
            lemma_pulled_remaining(spec_iter(self.source@), self.chars, self.taken@);
        }
        let got = self.chars.next();
        proof {
            self.taken = Ghost(self.taken@ + 1);
        }
        match got {
            Some(c) => Some(to_lower(c)),
            None => None,
        }
    }

    /// Pulls until the view is exhausted and gathers what the pulls hand out.
    pub fn collect(self) -> (r: Vec<char>)
        requires
            self.wf(),
        ensures
            r@ == yields(self@),
            r@ == lowered(self@),
    {
        let ghost all = self@;
        let mut view = self;
        let mut out: Vec<char> = Vec::new();
        loop
            invariant
                all == self@,
                view.wf(),
                out@.len() <= all.len(),
                view@ == all.skip(out@.len() as int),
                out@ == lowered(all.take(out@.len() as int)),
            decreases all.len() - out@.len(),
        {
            match view.next() {
                Some(c) => {
                    out.push(c);
                },
                None => {
                    proof {
                        lemma_yields_lowered(all);
                    }
                    return out;
                },
            }
        }
    }
}

/// Starts a fresh view at the beginning of `s`. The text is only borrowed,
/// so any number of views can be started over the same text.
pub fn lower<'a>(s: &'a str) -> (r: LowerChars<'a>)
    ensures
        r.wf(),
        r@ == s@,
{
    LowerChars { chars: s.chars(), source: Ghost(s), taken: Ghost(0) }
}

/// Pulling a view until it is exhausted hands out as many scalars as were
/// left to read, each the lower-case form of the source scalar at its place.
pub proof fn lemma_yields_lowered(x: Seq<char>)
    ensures
        yields(x).len() == x.len(),
        forall|i: int| 0 <= i < x.len() ==> yields(x)[i] == lower_of(x[i]),
        yields(x) == lowered(x),
    decreases x.len(),
{
    if x.len() > 0 {
        lemma_yields_lowered(x.drop_first());
    }
}

/// Two views that have the same text left to read hand out the same scalars,
/// pull for pull and as a whole, however each of them came to stand there.
pub proof fn lemma_same_source_same_output(x: Seq<char>, a: &LowerChars, b: &LowerChars)
    requires
        a.wf(),
        b.wf(),
        a@ == x,
        b@ == x,
    ensures
        step(a@) == step(b@),
        yields(a@) == yields(b@),
{
}

} // verus!
