//! The `Rustkell` capability: a forward traversal over a sequence of elements
//! whose position can be duplicated, and the `DupElem` capability for element
//! types that can be duplicated into an equal value.

use vstd::prelude::*;
use crate::pairs::Pairs;
use crate::pairs::adjacent_pairs;
use crate::tails::Tails;
use crate::tails::suffixes;

verus! {

/// A sequence element that can be duplicated into a value equal to the
/// original.  Both members of an adjacent pair are drawn from the same
/// logical occurrence of an element, so pairing requires this capability.
pub trait DupElem: Sized {
    /// Produce a value equal to `self` without consuming it.
    fn dup(&self) -> (r: Self)
        ensures
            r == *self,
    ;
}

impl DupElem for i32 {
    fn dup(&self) -> (r: Self)
        ensures
            r == *self,
    {
        *self
    }
}

impl DupElem for i64 {
    fn dup(&self) -> (r: Self)
        ensures
            r == *self,
    {
        *self
    }
}

impl DupElem for u32 {
    fn dup(&self) -> (r: Self)
        ensures
            r == *self,
    {
        *self
    }
}

impl DupElem for u64 {
    fn dup(&self) -> (r: Self)
        ensures
            r == *self,
    {
        *self
    }
}

impl DupElem for usize {
    fn dup(&self) -> (r: Self)
        ensures
            r == *self,
    {
        *self
    }
}

impl DupElem for bool {
    fn dup(&self) -> (r: Self)
        ensures
            r == *self,
    {
        *self
    }
}

impl DupElem for char {
    fn dup(&self) -> (r: Self)
        ensures
            r == *self,
    {
        *self
    }
}

impl DupElem for String {
    fn dup(&self) -> (r: Self)
        ensures
            r == *self,
    {
        self.clone()
    }
}

impl<'a, T> DupElem for &'a T {
    fn dup(&self) -> (r: Self)
        ensures
            r == *self,
    {
        *self
    }
}

/// The capability that the adaptors are built over: a forward traversal of a
/// sequence of elements.  `remaining` is the mathematical sequence of the
/// elements not yet produced; `next` produces the front element and advances;
/// `duplicate` snapshots the traversal position so that the original and the
/// duplicate advance independently.
pub trait Source: Sized {
    /// The element type of the sequence.
    type Elem;

    /// The sequence of elements this traversal has yet to produce.
    spec fn remaining(&self) -> Seq<Self::Elem>;

    /// Produce the front element and advance past it, or report exhaustion.
    /// Exhaustion is stable: once `remaining` is empty it stays empty.
    fn next(&mut self) -> (r: Option<Self::Elem>)
        ensures
            old(self).remaining().len() == 0 ==> r is None
                && final(self).remaining() == old(self).remaining(),
            old(self).remaining().len() > 0 ==> r == Some(old(self).remaining()[0])
                && final(self).remaining() == old(self).remaining().drop_first(),
    ;

    /// Duplicate the traversal position: the duplicate has the same elements
    /// still to produce, and advancing one does not advance the other.
    fn duplicate(&self) -> (r: Self)
        ensures
            r.remaining() == self.remaining(),
    ;
}

/// The extension capability that attaches the two adaptors to every
/// traversal: any [`Source`] gets `tails` and `pairs` as methods.
pub trait Rustkell: Source {
    /// All final segments of this traversal, longest first, starting with
    /// the whole of it and ending with the empty segment.
    fn tails(self) -> (t: Tails<Self>)
        ensures
            t.upcoming() == suffixes(self.remaining()),
    {
        Tails::create(self)
    }

    /// All adjacent overlapping pairs of this traversal, in order: each
    /// element stands second in one pair and first in the next.
    fn pairs(self) -> (p: Pairs<Self>)
        ensures
            p.upcoming() == adjacent_pairs(self.remaining()),
    {
        Pairs::create(self)
    }
}

impl<I: Source> Rustkell for I {

}

} // verus!
