//! The tails adaptor: all final segments of a sequence, longest first,
//! ending with the empty segment.

use vstd::prelude::*;
use crate::rustkell::Source;

verus! {

/// The suffixes of `s`, longest first: `s.len() + 1` of them, the `i`-th
/// being the suffix of `s` that starts at position `i`, the last one empty.
pub open spec fn suffixes<T>(s: Seq<T>) -> Seq<Seq<T>>
    decreases s.len(),
{
    if s.len() == 0 {
        seq![s]
    } else {
        seq![s] + suffixes(s.drop_first())
    }
}

/// For every sequence `s`, `suffixes(s)` holds exactly `s.len() + 1` items,
/// the `i`-th (0-indexed) is the suffix of `s` starting at position `i`, and
/// the last one is the empty sequence.
pub proof fn lemma_suffixes<T>(s: Seq<T>)
    ensures
        suffixes(s).len() == s.len() + 1,
        forall|i: int| 0 <= i <= s.len() ==> #[trigger] suffixes(s)[i] == s.skip(i),
        suffixes(s)[s.len() as int] == Seq::<T>::empty(),
    decreases s.len(),
{
    assert(s.skip(0) =~= s);
    if s.len() == 0 {
        assert(s =~= Seq::<T>::empty());
    } else {
        let t = s.drop_first();
        lemma_suffixes(t);
        assert forall|i: int| 1 <= i <= s.len() implies #[trigger] suffixes(s)[i] == s.skip(i) by {
            assert(suffixes(s)[i] == suffixes(t)[i - 1]);
            assert(suffixes(t)[i - 1] == t.skip(i - 1));
            assert(t.skip(i - 1) =~= s.skip(i));
        }
        assert(s.skip(s.len() as int) =~= Seq::<T>::empty());
    }
}

/// Produces each final segment of the wrapped traversal in turn, longest
/// first.  After the empty segment has been produced the iterator is
/// exhausted for good.
pub struct Tails<I: Source> {
    list: I,
    last: bool,
}

/// One final segment of a sequence, as produced by [`Tails`]: either the
/// empty segment, or a buffered head element (already pulled from the
/// source) followed by an independent duplicate of the source's traversal.
pub enum TailsList<I: Source> {
    Empty,
    Iter(Option<I::Elem>, I),
}

impl<I: Source> TailsList<I> {
    /// The elements this segment has yet to produce.
    pub closed spec fn elements(&self) -> Seq<I::Elem> {
        match self {
            TailsList::Empty => Seq::empty(),
            TailsList::Iter(first, cont) => match first {
                Some(x) => seq![*x] + cont.remaining(),
                None => cont.remaining(),
            },
        }
    }

    /// Produce the next element of the segment: the buffered head first,
    /// then whatever the continuation produces.  Exhaustion is stable: once
    /// this has produced nothing, every further call produces nothing.
    pub fn next(&mut self) -> (r: Option<I::Elem>)
        ensures
            old(self).elements().len() == 0 ==> r is None && final(self).elements().len() == 0,
            old(self).elements().len() > 0 ==> r == Some(old(self).elements()[0])
                && final(self).elements() == old(self).elements().drop_first(),
    {
        match self {
            TailsList::Empty => None,
            TailsList::Iter(first, cont) => {
                let taken = first.take();
                match taken {
                    Some(x) => {
                        proof {
                            assert((seq![x] + cont.remaining()).drop_first() =~= cont.remaining());
                        }
                        Some(x)
                    },
                    None => cont.next(),
                }
            },
        }
    }

    /// Drain the segment into a vector holding exactly its elements, in order.
    pub fn into_vec(self) -> (v: Vec<I::Elem>)
        ensures
            v@ == self.elements(),
    {
        let ghost all = self.elements();
        let mut cur = self;
        let mut v: Vec<I::Elem> = Vec::new();
        loop
            invariant
                v@ + cur.elements() == all,
            ensures
                v@ == all,
            decreases cur.elements().len(),
        {
            match cur.next() {
                Some(x) => {
                    v.push(x);
                    proof {
                        assert(v@ + cur.elements() =~= all);
                    }
                },
                None => {
                    proof {
                        assert(v@ =~= all);
                    }
                    break ;
                },
            }
        }
        v
    }
}

impl<I: Source> Tails<I> {
    /// The final segments this iterator has yet to produce.
    pub closed spec fn upcoming(&self) -> Seq<Seq<I::Elem>> {
        if self.last {
            Seq::empty()
        } else {
            suffixes(self.list.remaining())
        }
    }

    /// Wrap a traversal; every final segment of it is still to be produced,
    /// longest first.
    pub fn create(list: I) -> (t: Self)
        ensures
            t.upcoming() == suffixes(list.remaining()),
    {
        Tails { list, last: false }
    }

    /// Produce the next final segment, or nothing once the empty segment has
    /// been produced.  Exhaustion is stable: once this has produced nothing,
    /// every further call produces nothing.  The produced segment is
    /// independent: it owns a duplicate of the source's position, so draining
    /// it affects neither this iterator nor any other produced segment.
    pub fn next(&mut self) -> (r: Option<TailsList<I>>)
        ensures
            old(self).upcoming().len() == 0 ==> r is None && final(self).upcoming().len() == 0,
            old(self).upcoming().len() > 0 ==> (r matches Some(tl)
                && tl.elements() == old(self).upcoming()[0]
                && final(self).upcoming() == old(self).upcoming().drop_first()),
    {
        if self.last {
            None
        } else {
            let ghost rem = self.list.remaining();
            match self.list.next() {
                Some(elem) => {
                    let cont = self.list.duplicate();
                    let tl = TailsList::Iter(Some(elem), cont);
                    proof {
                        assert(tl.elements() =~= rem);
                        assert(suffixes(rem).drop_first() =~= suffixes(rem.drop_first()));
                    }
                    Some(tl)
                },
                None => {
                    self.last = true;
                    let tl = TailsList::<I>::Empty;
                    proof {
                        assert(suffixes(rem)[0] =~= Seq::<I::Elem>::empty());
                    }
                    Some(tl)
                },
            }
        }
    }
}

} // verus!
