//! An iterator that maps the indices of a range through a lookup function.
use vstd::prelude::*;

use crate::int_range_iter::IntRangeIter;

verus! {

/// `backward` may be called on every index below `len`, and never returns
/// `None` there.
pub open spec fn defined_below<D, B: Fn(usize) -> Option<D>>(backward: B, len: int) -> bool {
    forall|i: usize|
        i < len ==> {
            &&& #[trigger] backward.requires((i,))
            &&& forall|r: Option<D>| backward.ensures((i,), r) ==> r is Some
        }
}

/// The iterator over the elements of a function-backed set: it runs over
/// the indices `0..len` and maps each through `backward`.
#[derive(Clone, Copy, Debug, PartialEq, Eq)]
pub struct MappedSetIter<B> {
    range_iter: IntRangeIter<usize>,
    backward: B,
}

/// The name the mapped iterator goes by where sets are framed as numberings.
pub type MapNumIter<B> = MappedSetIter<B>;

impl<D, B> MappedSetIter<B> where B: Fn(usize) -> Option<D> {
    /// The index of the next item from the front.
    pub closed spec fn front(&self) -> int {
        self.range_iter.front()
    }

    /// One past the index of the next item from the back.
    pub closed spec fn back(&self) -> int {
        self.range_iter.back()
    }

    /// The lookup that turns an index into an item.
    pub closed spec fn mapping(&self) -> B {
        self.backward
    }

    /// The cursors are valid and the lookup yields an item for every index
    /// still to come.
    pub closed spec fn wf(&self) -> bool {
        &&& self.range_iter.wf()
        &&& defined_below(self.backward, self.range_iter.back())
    }

    /// Creates an iterator equivalent to mapping `0..len` through `backward`.
    ///
    /// `backward(n)` must be non-`None` for all `n < len`.
    pub fn new(len: usize, backward: B) -> (r: Self)
        requires
            defined_below(backward, len as int),
        ensures
            r.wf(),
            r.front() == 0,
            r.back() == len,
            r.mapping() == backward,
    {
        MappedSetIter { range_iter: IntRangeIter::new(0, len), backward }
    }

    fn apply(&self, i: Option<usize>) -> (r: Option<D>)
        requires
            i matches Some(n) ==> defined_below(self.backward, n + 1),
        ensures
            i is None ==> r is None,
            i matches Some(n) ==> (r is Some && self.mapping().ensures((n,), r)),
    {
        match i {
            Some(n) => {
                let d = (self.backward)(n);
                proof {
                    assert(self.backward.ensures((n,), d));
                }
                d
            },
            None => None,
        }
    }

    /// The number of items left.
    pub fn len(&self) -> (r: usize)
        requires
            self.wf(),
        ensures
            r == self.back() - self.front(),
    {
        self.range_iter.len()
    }

    /// The exact bounds on the number of items left.
    pub fn size_hint(&self) -> (r: (usize, Option<usize>))
        requires
            self.wf(),
        ensures
            r.0 == self.back() - self.front(),
            r.1 == Some(r.0),
    {
        self.range_iter.size_hint()
    }

    /// Takes the item at the front.
    pub fn next(&mut self) -> (r: Option<D>)
        requires
            old(self).wf(),
        ensures
            final(self).wf(),
            final(self).mapping() == old(self).mapping(),
            old(self).front() < old(self).back() ==> {
                &&& r is Some
                &&& old(self).mapping().ensures((old(self).front() as usize,), r)
                &&& final(self).front() == old(self).front() + 1
                &&& final(self).back() == old(self).back()
            },
            old(self).front() == old(self).back() ==> {
                &&& r is None
                &&& final(self).front() == old(self).front()
                &&& final(self).back() == old(self).back()
            },
    {
        proof {
            self.range_iter.lemma_wf();
        }
        let i = self.range_iter.next();
        self.apply(i)
    }

    /// Takes the item at the back.
    pub fn next_back(&mut self) -> (r: Option<D>)
        requires
            old(self).wf(),
        ensures
            final(self).wf(),
            final(self).mapping() == old(self).mapping(),
            old(self).front() < old(self).back() ==> {
                &&& r is Some
                &&& old(self).mapping().ensures(((old(self).back() - 1) as usize,), r)
                &&& final(self).front() == old(self).front()
                &&& final(self).back() == old(self).back() - 1
            },
            old(self).front() == old(self).back() ==> {
                &&& r is None
                &&& final(self).front() == old(self).front()
                &&& final(self).back() == old(self).back()
            },
    {
        proof {
            self.range_iter.lemma_wf();
        }
        let i = self.range_iter.next_back();
        self.apply(i)
    }

    /// Skips `n` items at the front and takes the next one; exhausts the
    /// iterator when fewer than `n + 1` items are left.
    pub fn nth(&mut self, n: usize) -> (r: Option<D>)
        requires
            old(self).wf(),
        ensures
            final(self).wf(),
            final(self).mapping() == old(self).mapping(),
            old(self).front() + n < old(self).back() ==> {
                &&& r is Some
                &&& old(self).mapping().ensures(((old(self).front() + n) as usize,), r)
                &&& final(self).front() == old(self).front() + n + 1
                &&& final(self).back() == old(self).back()
            },
            old(self).front() + n >= old(self).back() ==> {
                &&& r is None
                &&& final(self).front() == old(self).back()
                &&& final(self).back() == old(self).back()
            },
    {
        proof {
            self.range_iter.lemma_wf();
        }
        let i = self.range_iter.nth(n);
        self.apply(i)
    }

    /// Skips `n` items at the back and takes the one before them; exhausts
    /// the iterator when fewer than `n + 1` items are left.
    pub fn nth_back(&mut self, n: usize) -> (r: Option<D>)
        requires
            old(self).wf(),
        ensures
            final(self).wf(),
            final(self).mapping() == old(self).mapping(),
            old(self).front() + n < old(self).back() ==> {
                &&& r is Some
                &&& old(self).mapping().ensures(((old(self).back() - n - 1) as usize,), r)
                &&& final(self).front() == old(self).front()
                &&& final(self).back() == old(self).back() - n - 1
            },
            old(self).front() + n >= old(self).back() ==> {
                &&& r is None
                &&& final(self).front() == old(self).front()
                &&& final(self).back() == old(self).front()
            },
    {
        proof {
            self.range_iter.lemma_wf();
        }
        let i = self.range_iter.nth_back(n);
        self.apply(i)
    }

    /// Consumes the iterator and returns its last item.
    pub fn last(self) -> (r: Option<D>)
        requires
            self.wf(),
        ensures
            self.front() < self.back() ==> (r is Some && self.mapping().ensures(
                ((self.back() - 1) as usize,),
                r,
            )),
            self.front() == self.back() ==> r is None,
    {
        let mut it = self;
        it.next_back()
    }
}

} // verus!
