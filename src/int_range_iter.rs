//! A double-ended iterator over a half-open integer interval.
use vstd::prelude::*;

use crate::index_int::IndexInt;

verus! {

/// The integers `lo, lo + 1, ..., hi - 1`, as a sequence.
pub open spec fn interval(lo: int, hi: int) -> Seq<int> {
    Seq::new((hi - lo) as nat, |k: int| lo + k)
}

/// An iterator over the half-open range `[start, end)`.
///
/// Two cursors close in from both ends: `next` takes from the front and
/// `next_back` from the back, and the iterator is exhausted when they meet.
/// The number of remaining items always fits in a `usize`.
#[derive(Clone, Copy, Debug, PartialEq, Eq)]
pub struct IntRangeIter<T: IndexInt> {
    start: T,
    end: T,
}

/// The name the range iterator goes by where sets are framed as numberings.
pub type RangeIter<T> = IntRangeIter<T>;

impl<T: IndexInt> View for IntRangeIter<T> {
    type V = Seq<int>;

    /// The integers not yet produced, in ascending order.
    open spec fn view(&self) -> Seq<int> {
        interval(self.front(), self.back())
    }
}

impl<T: IndexInt> IntRangeIter<T> {
    /// The cursors are in order and the length fits in a `usize`.
    pub closed spec fn wf(&self) -> bool {
        self.start.value() <= self.end.value() <= self.start.value() + usize::MAX
    }

    /// The value of the front cursor (inclusive).
    pub closed spec fn front(&self) -> int {
        self.start.value()
    }

    /// The value of the back cursor (exclusive).
    pub closed spec fn back(&self) -> int {
        self.end.value()
    }

    pub proof fn lemma_wf(&self)
        requires
            self.wf(),
        ensures
            self.front() <= self.back() <= self.front() + usize::MAX,
    {
    }

    /// Creates an iterator over `[start, end)`.
    ///
    /// The range must not be negative, and its length must fit in a `usize`.
    pub fn new(start: T, end: T) -> (r: Self)
        requires
            start.value() <= end.value() <= start.value() + usize::MAX,
        ensures
            r.wf(),
            r.front() == start.value(),
            r.back() == end.value(),
    {
        IntRangeIter { start, end }
    }

    /// Returns the left endpoint of the remaining range (inclusive).
    pub fn start(&self) -> (r: T)
        requires
            self.wf(),
        ensures
            r.value() == self.front(),
    {
        self.start
    }

    /// Returns the right endpoint of the remaining range (exclusive).
    pub fn end(&self) -> (r: T)
        requires
            self.wf(),
        ensures
            r.value() == self.back(),
    {
        self.end
    }

    /// The number of items left.
    pub fn len(&self) -> (r: usize)
        requires
            self.wf(),
        ensures
            r == self.back() - self.front(),
            self.front() <= self.back(),
            r == self@.len(),
    {
        self.start.distance_to(&self.end).unwrap()
    }

    /// The exact bounds on the number of items left.
    pub fn size_hint(&self) -> (r: (usize, Option<usize>))
        requires
            self.wf(),
        ensures
            r.0 == self.back() - self.front(),
            r.0 == self@.len(),
            r.1 == Some(r.0),
    {
        let n = self.len();
        (n, Some(n))
    }

    /// Takes the item at the front.
    pub fn next(&mut self) -> (r: Option<T>)
        requires
            old(self).wf(),
        ensures
            final(self).wf(),
            old(self).front() < old(self).back() ==> {
                &&& r matches Some(x) && x.value() == old(self).front()
                &&& final(self).front() == old(self).front() + 1
                &&& final(self).back() == old(self).back()
                &&& final(self)@ == old(self)@.drop_first()
            },
            old(self).front() == old(self).back() ==> r is None && *final(self) == *old(self),
    {
        proof {
            T::lemma_bounds(self.start);
            T::lemma_bounds(self.end);
        }
        if self.start.is_less(&self.end) {
            let result = self.start;
            self.start = result.checked_add_usize(1).unwrap();
            proof {
                assert(self@ =~= old(self)@.drop_first());
            }
            Some(result)
        } else {
            None
        }
    }

    /// Takes the item at the back.
    pub fn next_back(&mut self) -> (r: Option<T>)
        requires
            old(self).wf(),
        ensures
            final(self).wf(),
            old(self).front() < old(self).back() ==> {
                &&& r matches Some(x) && x.value() == old(self).back() - 1
                &&& final(self).front() == old(self).front()
                &&& final(self).back() == old(self).back() - 1
                &&& final(self)@ == old(self)@.drop_last()
            },
            old(self).front() == old(self).back() ==> r is None && *final(self) == *old(self),
    {
        proof {
            T::lemma_bounds(self.start);
            T::lemma_bounds(self.end);
        }
        if self.start.is_less(&self.end) {
            self.end = self.end.checked_sub_usize(1).unwrap();
            proof {
                assert(self@ =~= old(self)@.drop_last());
            }
            Some(self.end)
        } else {
            None
        }
    }

    /// Skips `n` items at the front and takes the next one.
    ///
    /// If fewer than `n + 1` items are left, the iterator is exhausted
    /// (its front cursor moves to its back cursor) and `None` is returned.
    pub fn nth(&mut self, n: usize) -> (r: Option<T>)
        requires
            old(self).wf(),
        ensures
            final(self).wf(),
            old(self).front() + n < old(self).back() ==> {
                &&& r matches Some(x) && x.value() == old(self).front() + n
                &&& final(self).front() == old(self).front() + n + 1
                &&& final(self).back() == old(self).back()
            },
            old(self).front() + n >= old(self).back() ==> {
                &&& r is None
                &&& final(self).front() == old(self).back()
                &&& final(self).back() == old(self).back()
            },
    {
        proof {
            T::lemma_bounds(self.start);
            T::lemma_bounds(self.end);
        }
        match self.start.checked_add_usize(n) {
            Some(s) => {
                if s.is_less(&self.end) {
                    self.start = s.checked_add_usize(1).unwrap();
                    Some(s)
                } else {
                    self.start = self.end;
                    None
                }
            },
            None => {
                self.start = self.end;
                None
            },
        }
    }

    /// Skips `n` items at the back and takes the one before them.
    ///
    /// If fewer than `n + 1` items are left, the iterator is exhausted
    /// (its back cursor moves to its front cursor) and `None` is returned.
    pub fn nth_back(&mut self, n: usize) -> (r: Option<T>)
        requires
            old(self).wf(),
        ensures
            final(self).wf(),
            old(self).front() + n < old(self).back() ==> {
                &&& r matches Some(x) && x.value() == old(self).back() - n - 1
                &&& final(self).front() == old(self).front()
                &&& final(self).back() == old(self).back() - n - 1
            },
            old(self).front() + n >= old(self).back() ==> {
                &&& r is None
                &&& final(self).front() == old(self).front()
                &&& final(self).back() == old(self).front()
            },
    {
        proof {
            T::lemma_bounds(self.start);
            T::lemma_bounds(self.end);
        }
        match self.end.checked_sub_usize(n) {
            Some(e) => {
                if self.start.is_less(&e) {
                    self.end = e.checked_sub_usize(1).unwrap();
                    Some(self.end)
                } else {
                    self.end = self.start;
                    None
                }
            },
            None => {
                self.end = self.start;
                None
            },
        }
    }

    /// Consumes the iterator and returns its last item.
    pub fn last(self) -> (r: Option<T>)
        requires
            self.wf(),
        ensures
            self.front() < self.back() ==> (r matches Some(x) && x.value() == self.back() - 1),
            self.front() == self.back() ==> r is None,
    {
        let mut it = self;
        it.next_back()
    }

    /// Consumes the iterator and returns its least item.
    pub fn min(self) -> (r: Option<T>)
        requires
            self.wf(),
        ensures
            self.front() < self.back() ==> (r matches Some(x) && x.value() == self.front()),
            self.front() == self.back() ==> r is None,
    {
        let mut it = self;
        it.next()
    }

    /// Consumes the iterator and returns its greatest item.
    pub fn max(self) -> (r: Option<T>)
        requires
            self.wf(),
        ensures
            self.front() < self.back() ==> (r matches Some(x) && x.value() == self.back() - 1),
            self.front() == self.back() ==> r is None,
    {
        self.last()
    }
}

/// What a run of pulls takes from the sequence `s`, in the order taken: a
/// `false` in `from_back` takes the first item (as `next` does), a `true` the
/// last (as `next_back` does). Pulls past the end take nothing.
pub open spec fn pulls(s: Seq<int>, from_back: Seq<bool>) -> Seq<int>
    decreases from_back.len(),
{
    if from_back.len() == 0 || s.len() == 0 {
        Seq::empty()
    } else if from_back[0] {
        seq![s.last()] + pulls(s.drop_last(), from_back.drop_first())
    } else {
        seq![s[0]] + pulls(s.drop_first(), from_back.drop_first())
    }
}

/// Pulling from both ends: any interleaving of `next` and `next_back` with
/// as many pulls as items takes every item exactly once; pulling only from
/// the front gives the items in ascending order, and pulling only from the
/// back gives them in descending order.
pub proof fn lemma_two_ended_pulls(s: Seq<int>, from_back: Seq<bool>)
    requires
        from_back.len() == s.len(),
    ensures
        pulls(s, from_back).to_multiset() == s.to_multiset(),
        pulls(s, from_back).len() == s.len(),
        (forall|k: int| 0 <= k < from_back.len() ==> !from_back[k]) ==> pulls(s, from_back) == s,
        (forall|k: int| 0 <= k < from_back.len() ==> from_back[k]) ==> pulls(s, from_back)
            == s.reverse(),
    decreases s.len(),
{
    broadcast use vstd::multiset::group_multiset_axioms;

    if s.len() == 0 {
        assert(pulls(s, from_back) =~= s);
        assert(s.reverse() =~= s);
    } else {
        let rest = from_back.drop_first();
        if from_back[0] {
            lemma_two_ended_pulls(s.drop_last(), rest);
            let tail = pulls(s.drop_last(), rest);
            vstd::seq_lib::lemma_multiset_commutative(seq![s.last()], tail);
            vstd::seq_lib::lemma_multiset_commutative(s.drop_last(), seq![s.last()]);
            assert(s.drop_last() + seq![s.last()] =~= s);
            assert(pulls(s, from_back).to_multiset() =~= s.to_multiset());
            if forall|k: int| 0 <= k < from_back.len() ==> from_back[k] {
                assert forall|k: int| 0 <= k < rest.len() implies rest[k] by {
                    assert(rest[k] == from_back[k + 1]);
                }
                assert(pulls(s, from_back) =~= s.reverse());
            }
        } else {
            lemma_two_ended_pulls(s.drop_first(), rest);
            let tail = pulls(s.drop_first(), rest);
            vstd::seq_lib::lemma_multiset_commutative(seq![s[0]], tail);
            vstd::seq_lib::lemma_multiset_commutative(seq![s[0]], s.drop_first());
            assert(seq![s[0]] + s.drop_first() =~= s);
            if forall|k: int| 0 <= k < from_back.len() ==> !from_back[k] {
                assert forall|k: int| 0 <= k < rest.len() implies !rest[k] by {
                    assert(rest[k] == from_back[k + 1]);
                }
                assert(pulls(s, from_back) =~= s);
            }
        }
    }
}

} // verus!
