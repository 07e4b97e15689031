//! The numbering framing of a function-backed set: a bijection given as a
//! pair of maps, domain element -> number first, then number -> element.
use vstd::prelude::*;

use crate::fn_set::{lookups_enumerate, FnSet};
use crate::mapped_set_iter::MappedSetIter;
use crate::set::IndexedSet;

verus! {

/// The numbering given by a forward map (element -> number) and a backward
/// map (number -> element).
#[derive(Clone, Copy, Debug, PartialEq, Eq)]
pub struct MapNum<F, B> {
    set: FnSet<B, F>,
}

impl<D, F, B> MapNum<F, B> where F: Fn(D) -> Option<usize>, B: Fn(usize) -> Option<D> {
    /// The same bijection framed as a set: its forward lookup is `backward`.
    pub closed spec fn numbering(&self) -> FnSet<B, F> {
        self.set
    }

    /// The forward map.
    pub closed spec fn forward(&self) -> F {
        self.set.reverse()
    }

    /// The backward map.
    pub closed spec fn backward(&self) -> B {
        self.set.forward()
    }

    /// Creates a new [`MapNum`]; the cardinality of the domain is the first
    /// `n` such that `backward(n)` is `None`.
    ///
    /// The two maps must be inverses over some sequence of distinct elements
    /// whose length is at most `usize::MAX`.
    pub fn new(forward: F, backward: B) -> (r: Self)
        requires
            exists|elems: Seq<D>| lookups_enumerate(backward, forward, elems),
        ensures
            r.wf(),
            r.forward() == forward,
            r.backward() == backward,
            lookups_enumerate(backward, forward, r.elements()),
    {
        MapNum { set: FnSet::new(backward, forward) }
    }

    /// Creates a new [`MapNum`] whose domain has `len` elements.
    ///
    /// The two maps must be inverses over some sequence of `len` distinct
    /// elements.
    pub fn with_len(len: usize, forward: F, backward: B) -> (r: Self)
        requires
            exists|elems: Seq<D>| elems.len() == len && lookups_enumerate(backward, forward, elems),
        ensures
            r.wf(),
            r.elements().len() == len,
            r.forward() == forward,
            r.backward() == backward,
            lookups_enumerate(backward, forward, r.elements()),
    {
        MapNum { set: FnSet::with_len(len, backward, forward) }
    }
}

impl<D, F, B> MapNum<F, B> where F: Fn(D) -> Option<usize>, B: Fn(usize) -> Option<D> + Copy {
    /// An iterator over the domain in ascending order of numbering.
    pub fn iter(&self) -> (r: MappedSetIter<B>)
        requires
            self.wf(),
        ensures
            r.wf(),
            r.front() == 0,
            r.back() == self.elements().len(),
            r.mapping() == self.backward(),
    {
        self.set.iter()
    }
}

impl<D, F, B> IndexedSet for MapNum<F, B> where
    F: Fn(D) -> Option<usize>,
    B: Fn(usize) -> Option<D>,
 {
    type Element = D;

    open spec fn elements(&self) -> Seq<D> {
        self.numbering().elements()
    }

    open spec fn wf(&self) -> bool {
        self.numbering().wf()
    }

    proof fn lemma_elements(&self) {
        self.set.lemma_elements();
    }

    fn len(&self) -> (r: usize) {
        self.set.len()
    }

    fn index(&self, index: usize) -> (r: Option<D>) {
        self.set.index(index)
    }

    fn index_of(&self, element: D) -> (r: Option<usize>) {
        self.set.index_of(element)
    }
}

} // verus!
