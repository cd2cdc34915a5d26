//! Concrete traversals carrying the [`Source`] capability: an owned,
//! consuming traversal of a vector, and a by-reference traversal of a slice.

use vstd::prelude::*;
use crate::rustkell::DupElem;
use crate::rustkell::Source;

verus! {

/// An owned traversal that consumes a vector from the front.
pub struct VecSource<T> {
    elems: Vec<T>,
}

impl<T: DupElem> VecSource<T> {
    /// A traversal that will produce exactly the elements of `elems`, in
    /// order.
    pub fn new(elems: Vec<T>) -> (r: Self)
        ensures
            r.remaining() == elems@,
    {
        VecSource { elems }
    }
}

impl<T: DupElem> Source for VecSource<T> {
    type Elem = T;

    closed spec fn remaining(&self) -> Seq<T> {
        self.elems@
    }

    fn next(&mut self) -> (r: Option<T>)
        ensures
            old(self).remaining().len() == 0 ==> r is None
                && final(self).remaining() == old(self).remaining(),
            old(self).remaining().len() > 0 ==> r == Some(old(self).remaining()[0])
                && final(self).remaining() == old(self).remaining().drop_first(),
    {
        if self.elems.len() > 0 {
            let e = self.elems.remove(0);
            proof {
                assert(self.elems@ =~= old(self).elems@.drop_first());
            }
            Some(e)
        } else {
            None
        }
    }

    fn duplicate(&self) -> (r: Self)
        ensures
            r.remaining() == self.remaining(),
    {
        let mut elems: Vec<T> = Vec::new();
        let n = self.elems.len();
        let mut i: usize = 0;
        while i < n
            invariant
                n == self.elems@.len(),
                0 <= i <= n,
                elems@ == self.elems@.subrange(0, i as int),
            decreases n - i,
        {
            let e = self.elems[i].dup();
            elems.push(e);
            proof {
                assert(elems@ =~= self.elems@.subrange(0, i + 1));
            }
            i = i + 1;
        }
        proof {
            assert(elems@ =~= self.elems@);
        }
        VecSource { elems }
    }
}

/// A by-reference traversal over a borrowed slice: it produces duplicates of
/// the elements and leaves the slice untouched.  Duplicating its position
/// copies only the position, never the backing data.
pub struct SliceSource<'a, T> {
    elems: &'a [T],
    pos: usize,
}

impl<'a, T: DupElem> SliceSource<'a, T> {
    /// A traversal that will produce duplicates of exactly the elements of
    /// `elems`, in order.
    pub fn new(elems: &'a [T]) -> (r: Self)
        ensures
            r.remaining() == elems@,
    {
        let r = SliceSource { elems, pos: 0 };
        proof {
            assert(elems@.skip(0) =~= elems@);
        }
        r
    }
}

impl<'a, T: DupElem> Source for SliceSource<'a, T> {
    type Elem = T;

    closed spec fn remaining(&self) -> Seq<T> {
        // The position never passes the end of the slice; the guard only
        // keeps the function meaningful on every value of the fields.
        if self.pos <= self.elems@.len() {
            self.elems@.skip(self.pos as int)
        } else {
            Seq::empty()
        }
    }

    fn next(&mut self) -> (r: Option<T>)
        ensures
            old(self).remaining().len() == 0 ==> r is None
                && final(self).remaining() == old(self).remaining(),
            old(self).remaining().len() > 0 ==> r == Some(old(self).remaining()[0])
                && final(self).remaining() == old(self).remaining().drop_first(),
    {
        if self.pos < self.elems.len() {
            let e = self.elems[self.pos].dup();
            self.pos = self.pos + 1;
            proof {
                assert(self.elems@.skip(self.pos as int) =~= old(
                    self,
                ).remaining().drop_first());
            }
            Some(e)
        } else {
            None
        }
    }

    fn duplicate(&self) -> (r: Self)
        ensures
            r.remaining() == self.remaining(),
    {
        SliceSource { elems: self.elems, pos: self.pos }
    }
}

} // verus!
