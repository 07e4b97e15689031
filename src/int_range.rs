//! The set `{0, ..., len - 1}` over a primitive integer type.
use vstd::prelude::*;

use crate::index_int::IndexInt;
use crate::int_range_iter::{interval, IntRangeIter};
use crate::set::IndexedSet;

verus! {

/// The set of integers between `0` and `len - 1`, indexed by their value.
#[derive(Clone, Copy, Debug, PartialEq, Eq, Hash)]
pub struct IntRange<Idx: IndexInt> {
    len: Idx,
}

/// The name the integer range goes by where sets are framed as numberings.
pub type Range<Idx> = IntRange<Idx>;

/// The identity numbering of `{0, ..., len - 1}`.
pub type IdNum<Idx> = IntRange<Idx>;

impl<Idx: IndexInt> IntRange<Idx> {
    /// The cardinality of the range.
    pub closed spec fn size(&self) -> int {
        self.len.value()
    }

    /// The range `{0, ..., n - 1}`.
    pub closed spec fn of_size(n: int) -> Self {
        IntRange { len: Idx::of_value(n) }
    }

    pub proof fn lemma_of_size(n: int)
        requires
            0 <= n <= Idx::max_value(),
        ensures
            Self::of_size(n).size() == n,
    {
        Idx::lemma_bounds(Self::of_size(n).len);
        Idx::lemma_of_value(n);
    }

    /// Creates a new [`IntRange`] on `{0, ..., len - 1}`.
    ///
    /// `len` must be representable as a `usize`.
    pub fn new(len: Idx) -> (r: Self)
        requires
            0 <= len.value() <= usize::MAX,
        ensures
            r.wf(),
            r.size() == len.value(),
            r == Self::of_size(len.value()),
    {
        proof {
            Idx::lemma_bounds(len);
            Idx::lemma_of_value(len.value());
            Idx::lemma_injective(len, Idx::of_value(len.value()));
        }
        IntRange { len }
    }

    /// An iterator over `0, 1, ..., len - 1`.
    pub fn iter(&self) -> (r: IntRangeIter<Idx>)
        requires
            self.wf(),
        ensures
            r.wf(),
            r.front() == 0,
            r.back() == self.size(),
            r@ == interval(0, self.size()),
    {
        IntRangeIter::new(Idx::zero(), self.len)
    }
}

impl<Idx: IndexInt> IndexedSet for IntRange<Idx> {
    type Element = Idx;

    open spec fn elements(&self) -> Seq<Idx> {
        Seq::new(self.size() as nat, |k: int| Idx::of_value(k))
    }

    open spec fn wf(&self) -> bool {
        0 <= self.size() <= usize::MAX
    }

    proof fn lemma_elements(&self) {
        Idx::lemma_bounds(self.len);
        assert forall|i: int, j: int|
            0 <= i < self.elements().len() && 0 <= j < self.elements().len() && i != j implies
            self.elements()[i] != self.elements()[j] by {
            Idx::lemma_of_value(i);
            Idx::lemma_of_value(j);
        }
    }

    fn len(&self) -> (r: usize) {
        self.len.to_usize().unwrap()
    }

    fn index(&self, index: usize) -> (r: Option<Idx>) {
        proof {
            Idx::lemma_bounds(self.len);
        }
        match self.len.to_usize() {
            Some(n) if index < n => {
                let x = Idx::from_usize(index).unwrap();
                proof {
                    Idx::lemma_of_value(index as int);
                    Idx::lemma_injective(x, Idx::of_value(index as int));
                }
                Some(x)
            },
            _ => None,
        }
    }

    fn index_of(&self, element: Idx) -> (r: Option<usize>) {
        proof {
            Idx::lemma_bounds(self.len);
        }
        let zero = Idx::zero();
        if !element.is_less(&zero) && element.is_less(&self.len) {
            let i = element.to_usize().unwrap();
            proof {
                Idx::lemma_of_value(i as int);
                Idx::lemma_injective(element, Idx::of_value(i as int));
            }
            Some(i)
        } else {
            proof {
                if self.elements().contains(element) {
                    let k = choose|k: int| 0 <= k < self.elements().len() && self.elements()[k] == element;
                    Idx::lemma_of_value(k);
                }
            }
            None
        }
    }
}

} // verus!
