//! Operations on 'list' containers: any container that can hand out a
//! by-reference traversal of its elements gets `tails`.

use vstd::prelude::*;
use crate::rustkell::DupElem;
use crate::sources::SliceSource;
use crate::tails::Tails;
use crate::tails::suffixes;

verus! {

/// Operations on 'list' containers.  `tails` borrows the container and
/// produces all of its final segments, longest first, without mutating or
/// consuming it.
pub trait DataList {
    /// The element type of the list.
    type Elem: DupElem;

    /// The elements of the list, in order.
    spec fn elements(&self) -> Seq<Self::Elem>;

    /// All final segments of the list, longest first, over a traversal
    /// borrowed from it.
    fn tails<'a>(&'a self) -> (t: Tails<SliceSource<'a, Self::Elem>>)
        ensures
            t.upcoming() == suffixes(self.elements()),
    ;
}

impl<T: DupElem> DataList for Vec<T> {
    type Elem = T;

    open spec fn elements(&self) -> Seq<T> {
        self@
    }

    fn tails<'a>(&'a self) -> (t: Tails<SliceSource<'a, T>>)
        ensures
            t.upcoming() == suffixes(self.elements()),
    {
        Tails::create(SliceSource::new(self.as_slice()))
    }
}

impl<'s, T: DupElem> DataList for &'s [T] {
    type Elem = T;

    open spec fn elements(&self) -> Seq<T> {
        self@
    }

    fn tails<'a>(&'a self) -> (t: Tails<SliceSource<'a, T>>)
        ensures
            t.upcoming() == suffixes(self.elements()),
    {
        Tails::create(SliceSource::new(*self))
    }
}

} // verus!
