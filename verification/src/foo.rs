//! A record that borrows its text instead of owning it.

use vstd::prelude::*;

verus! {

/// A record whose name is a borrowed text: the record must not outlive it.
///
/// Its view is the text of its name.
pub struct Foo<'a> {
    pub name: &'a str,
}

impl<'a> View for Foo<'a> {
    type V = Seq<char>;

    open spec fn view(&self) -> Seq<char> {
        self.name@
    }
}

impl<'a> Foo<'a> {
    /// Puts `s` in place of the name and hands the record back, so that calls
    /// can be chained.
    pub fn name(&'a mut self, s: &'a str) -> (r: &'a mut Foo<'a>)
        ensures
            *r == (Foo { name: s }),
            r@ == s@,
            *final(self) == *final(r),
    {
        self.name = s;
        self
    }
}

} // verus!
