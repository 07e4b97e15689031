//! Sets given by a pair of inverse lookup functions instead of stored data.
use vstd::prelude::*;

use crate::mapped_set_iter::{defined_below, MappedSetIter};
use crate::set::{element_at, is_position, IndexedSet};

verus! {

/// `forward` and `reverse` are inverse lookups over `elems`: `forward(i)` is
/// the element at index `i` (and `None` past the end), and `reverse(x)` is the
/// index of `x` (and `None` for a value that is not an element).
pub open spec fn lookups_enumerate<E, F: Fn(usize) -> Option<E>, R: Fn(E) -> Option<usize>>(
    forward: F,
    reverse: R,
    elems: Seq<E>,
) -> bool {
    &&& elems.len() <= usize::MAX
    &&& elems.no_duplicates()
    &&& forall|i: usize| #[trigger] forward.requires((i,))
    &&& forall|x: E| #[trigger] reverse.requires((x,))
    &&& forall|i: usize, r: Option<E>|
        #[trigger] forward.ensures((i,), r) ==> r == element_at(elems, i as int)
    &&& forall|x: E, r: Option<usize>| #[trigger] reverse.ensures((x,), r) ==> is_position(elems, x, r)
}

/// The inverse law of a lookup pair: the index of the element at index `i` is
/// `i`, and the element at the index of `x` is `x`.
pub proof fn lemma_lookups_inverse<E, F: Fn(usize) -> Option<E>, R: Fn(E) -> Option<usize>>(
    forward: F,
    reverse: R,
    elems: Seq<E>,
    i: usize,
    x: E,
    index_back: Option<usize>,
    element_back: Option<E>,
)
    requires
        lookups_enumerate(forward, reverse, elems),
    ensures
        forward.ensures((i,), Some(x)) && reverse.ensures((x,), index_back) ==> index_back == Some(i),
        reverse.ensures((x,), Some(i)) && forward.ensures((i,), element_back) ==> element_back == Some(x),
{
}

/// The ordered set represented by a forward lookup (index -> element) and a
/// reverse lookup (element -> index).
#[derive(Clone, Copy, Debug, PartialEq, Eq)]
pub struct FnSet<F, R> {
    len: usize,
    forward_lookup: F,
    reverse_lookup: R,
}

/// The name the function-backed set goes by in the set framing of numberings.
pub type MapSet<F, R> = FnSet<F, R>;

impl<E, F, R> FnSet<F, R> where F: Fn(usize) -> Option<E>, R: Fn(E) -> Option<usize> {
    /// The forward lookup.
    pub closed spec fn forward(&self) -> F {
        self.forward_lookup
    }

    /// The reverse lookup.
    pub closed spec fn reverse(&self) -> R {
        self.reverse_lookup
    }

    /// Creates a new [`FnSet`] from its forward and reverse lookups; the
    /// cardinality is the first `n` such that `forward_lookup(n)` is `None`.
    ///
    /// The two lookups must be inverses over some sequence of distinct
    /// elements whose length is at most `usize::MAX`.
    pub fn new(forward_lookup: F, reverse_lookup: R) -> (r: Self)
        requires
            exists|elems: Seq<E>| lookups_enumerate(forward_lookup, reverse_lookup, elems),
        ensures
            r.wf(),
            r.forward() == forward_lookup,
            r.reverse() == reverse_lookup,
            lookups_enumerate(forward_lookup, reverse_lookup, r.elements()),
    {
        let ghost elems = choose|elems: Seq<E>|
            lookups_enumerate(forward_lookup, reverse_lookup, elems);
        let mut n: usize = 0;
        loop
            invariant
                lookups_enumerate(forward_lookup, reverse_lookup, elems),
                n <= elems.len(),
            ensures
                n == elems.len(),
            decreases elems.len() - n,
        {
            let image = forward_lookup(n);
            if image.is_none() {
                break;
            }
            n = n + 1;
        }
        assert(elems.len() == n && lookups_enumerate(forward_lookup, reverse_lookup, elems));
        FnSet::with_len(n, forward_lookup, reverse_lookup)
    }

    /// Creates a new [`FnSet`] of `len` elements from its forward and reverse
    /// lookups.
    ///
    /// The two lookups must be inverses over some sequence of `len` distinct
    /// elements.
    pub fn with_len(len: usize, forward_lookup: F, reverse_lookup: R) -> (r: Self)
        requires
            exists|elems: Seq<E>|
                elems.len() == len && lookups_enumerate(forward_lookup, reverse_lookup, elems),
        ensures
            r.wf(),
            r.elements().len() == len,
            r.forward() == forward_lookup,
            r.reverse() == reverse_lookup,
            lookups_enumerate(forward_lookup, reverse_lookup, r.elements()),
    {
        FnSet { len, forward_lookup, reverse_lookup }
    }

    /// Consumes the set and returns an iterator over its elements.
    pub fn into_iter(self) -> (r: MappedSetIter<F>)
        requires
            self.wf(),
        ensures
            r.wf(),
            r.front() == 0,
            r.back() == self.elements().len(),
            r.mapping() == self.forward(),
    {
        proof {
            self.lemma_defined();
        }
        MappedSetIter::new(self.len, self.forward_lookup)
    }

    proof fn lemma_defined(&self)
        requires
            self.wf(),
        ensures
            defined_below(self.forward_lookup, self.len as int),
    {
        let elems = self.elements();
        assert forall|i: usize| i < self.len implies {
            &&& #[trigger] self.forward_lookup.requires((i,))
            &&& forall|r: Option<E>| self.forward_lookup.ensures((i,), r) ==> r is Some
        } by {
            assert(lookups_enumerate(self.forward_lookup, self.reverse_lookup, elems));
        }
    }
}

impl<E, F, R> FnSet<F, R> where F: Fn(usize) -> Option<E> + Copy, R: Fn(E) -> Option<usize> {
    /// An iterator over the elements in ascending order of their indices.
    pub fn iter(&self) -> (r: MappedSetIter<F>)
        requires
            self.wf(),
        ensures
            r.wf(),
            r.front() == 0,
            r.back() == self.elements().len(),
            r.mapping() == self.forward(),
    {
        proof {
            self.lemma_defined();
        }
        MappedSetIter::new(self.len, self.forward_lookup)
    }
}

impl<E, F, R> IndexedSet for FnSet<F, R> where
    F: Fn(usize) -> Option<E>,
    R: Fn(E) -> Option<usize>,
 {
    type Element = E;

    closed spec fn elements(&self) -> Seq<E> {
        choose|elems: Seq<E>|
            elems.len() == self.len && lookups_enumerate(
                self.forward_lookup,
                self.reverse_lookup,
                elems,
            )
    }

    closed spec fn wf(&self) -> bool {
        exists|elems: Seq<E>|
            elems.len() == self.len && lookups_enumerate(
                self.forward_lookup,
                self.reverse_lookup,
                elems,
            )
    }

    proof fn lemma_elements(&self) {
    }

    fn len(&self) -> (r: usize) {
        self.len
    }

    fn index(&self, index: usize) -> (r: Option<E>) {
        (self.forward_lookup)(index)
    }

    fn index_of(&self, element: E) -> (r: Option<usize>) {
        (self.reverse_lookup)(element)
    }
}

} // verus!
