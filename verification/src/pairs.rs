//! The pairs adaptor: every adjacent overlapping pair of elements of a
//! sequence, in order.  A sequence of fewer than two elements yields none.

use vstd::prelude::*;
use crate::rustkell::DupElem;
use crate::rustkell::Source;

verus! {

/// The adjacent overlapping pairs of `s`: `max(s.len() - 1, 0)` of them, the
/// `i`-th being `(s[i], s[i + 1])`.
pub open spec fn adjacent_pairs<T>(s: Seq<T>) -> Seq<(T, T)>
    decreases s.len(),
{
    if s.len() < 2 {
        Seq::empty()
    } else {
        seq![(s[0], s[1])] + adjacent_pairs(s.drop_first())
    }
}

/// For every sequence `s`, `adjacent_pairs(s)` holds exactly
/// `max(s.len() - 1, 0)` items, the `i`-th (0-indexed) being
/// `(s[i], s[i + 1])`.
pub proof fn lemma_adjacent_pairs<T>(s: Seq<T>)
    ensures
        s.len() < 2 ==> adjacent_pairs(s).len() == 0,
        s.len() >= 2 ==> adjacent_pairs(s).len() == s.len() - 1,
        forall|i: int| 0 <= i < adjacent_pairs(s).len() ==> #[trigger] adjacent_pairs(s)[i] == (
        s[i],
        s[i + 1],
        ),
    decreases s.len(),
{
    if s.len() >= 2 {
        let t = s.drop_first();
        lemma_adjacent_pairs(t);
        assert forall|i: int| 0 <= i < adjacent_pairs(s).len() implies #[trigger] adjacent_pairs(
            s,
        )[i] == (s[i], s[i + 1]) by {
            if i > 0 {
                assert(adjacent_pairs(s)[i] == adjacent_pairs(t)[i - 1]);
            }
        }
    }
}

/// Produces each adjacent overlapping pair of the wrapped traversal in turn.
/// Holds at most one buffered element: the one that will stand first in the
/// next pair produced.
pub struct Pairs<I: Source> {
    list: I,
    prev: Option<I::Elem>,
}

impl<I: Source> Pairs<I> {
    /// The pairs this iterator has yet to produce.
    pub closed spec fn upcoming(&self) -> Seq<(I::Elem, I::Elem)> {
        match self.prev {
            None => adjacent_pairs(self.list.remaining()),
            Some(p) => adjacent_pairs(seq![p] + self.list.remaining()),
        }
    }

    /// Wrap a traversal; every adjacent pair of it is still to be produced,
    /// in order.
    pub fn create(list: I) -> (p: Self)
        ensures
            p.upcoming() == adjacent_pairs(list.remaining()),
    {
        Pairs { list, prev: None }
    }
}

impl<I: Source> Pairs<I> where I::Elem: DupElem {
    /// Produce the next adjacent pair, or nothing once fewer than two
    /// elements remain.  Exhaustion is stable: once this has produced
    /// nothing, every further call produces nothing.
    pub fn next(&mut self) -> (r: Option<(I::Elem, I::Elem)>)
        ensures
            old(self).upcoming().len() == 0 ==> r is None && final(self).upcoming().len() == 0,
            old(self).upcoming().len() > 0 ==> r == Some(old(self).upcoming()[0])
                && final(self).upcoming() == old(self).upcoming().drop_first(),
    {
        if self.prev.is_none() {
            match self.list.next() {
                Some(first) => {
                    self.prev = Some(first);
                },
                None => {
                    return None;
                },
            }
        }
        let ghost p = self.prev->0;
        let ghost rem = self.list.remaining();
        match self.list.next() {
            Some(current) => {
                let second = current.dup();
                let taken = self.prev.take();
                self.prev = Some(second);
                match taken {
                    Some(first) => {
                        proof {
                            let whole = seq![p] + rem;
                            assert(whole.len() >= 2);
                            assert(whole[0] == p);
                            assert(whole[1] == rem[0]);
                            assert(whole.drop_first() =~= rem);
                            assert(seq![current] + rem.drop_first() =~= rem);
                        }
                        Some((first, current))
                    },
                    None => {
                        // `prev` holds an element whenever this point is
                        // reached, so this branch cannot be taken.
                        None
                    },
                }
            },
            None => {
                proof {
                    assert((seq![p] + rem).len() < 2);
                }
                None
            },
        }
    }

    /// Drain the iterator into a vector holding exactly the pairs it had yet
    /// to produce, in order.
    pub fn into_vec(self) -> (v: Vec<(I::Elem, I::Elem)>)
        ensures
            v@ == self.upcoming(),
    {
        let ghost all = self.upcoming();
        let mut cur = self;
        let mut v: Vec<(I::Elem, I::Elem)> = Vec::new();
        loop
            invariant
                v@ + cur.upcoming() == all,
            ensures
                v@ == all,
            decreases cur.upcoming().len(),
        {
            match cur.next() {
                Some(x) => {
                    v.push(x);
                    proof {
                        assert(v@ + cur.upcoming() =~= all);
                    }
                },
                None => {
                    proof {
                        assert(v@ =~= all);
                    }
                    break ;
                },
            }
        }
        v
    }
}

} // verus!
