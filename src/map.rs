//! The map contract: an association from the elements of an indexed set
//! (the domain) to one output each.
use vstd::prelude::*;

use crate::int_range::IntRange;
use crate::set::IndexedSet;

verus! {

/// A map whose domain is an indexed set; the image of a domain element is
/// reached through its index.
pub trait IndexedMap: Sized {
    /// The type of the domain of the map.
    type Domain: IndexedSet;

    /// The type of the output of the map.
    type Output;

    /// The domain.
    spec fn domain_view(&self) -> Self::Domain;

    /// The map's own invariant; it includes that of the domain.
    spec fn wf(&self) -> bool;

    /// `y` is the image of the domain element with index `n`.
    spec fn is_image(&self, n: int, y: Self::Output) -> bool;

    proof fn lemma_wf(&self)
        requires
            self.wf(),
        ensures
            self.domain_view().wf(),
    ;

    /// Returns the domain of the map.
    fn domain(&self) -> (r: Self::Domain)
        requires
            self.wf(),
        ensures
            r == self.domain_view(),
    ;

    /// Returns the image of the `n`th element of the domain, or `None` if
    /// out of range.
    fn get_index(&self, n: usize) -> (r: Option<Self::Output>)
        requires
            self.wf(),
        ensures
            r is Some <==> n < self.domain_view().elements().len(),
            r matches Some(y) ==> self.is_image(n as int, y),
    ;

    /// Returns the image of a given element, or `None` if the domain does not
    /// contain it.
    fn get(&self, x: <Self::Domain as IndexedSet>::Element) -> (r: Option<Self::Output>)
        requires
            self.wf(),
        ensures
            r is Some <==> self.domain_view().elements().contains(x),
            forall|n: int|
                0 <= n < self.domain_view().elements().len()
                    && #[trigger] self.domain_view().elements()[n] == x ==> (r matches Some(y)
                    && self.is_image(n, y)),
    {
        proof {
            self.lemma_wf();
            self.domain_view().lemma_elements();
        }
        match self.domain().index_of(x) {
            Some(n) => self.get_index(n),
            None => None,
        }
    }
}

impl<'a, T> IndexedMap for &'a [T] {
    type Domain = IntRange<usize>;

    type Output = &'a T;

    /// The indices of the slice.
    open spec fn domain_view(&self) -> IntRange<usize> {
        IntRange::of_size(self@.len() as int)
    }

    open spec fn wf(&self) -> bool {
        true
    }

    open spec fn is_image(&self, n: int, y: &'a T) -> bool {
        0 <= n < self@.len() && *y == self@[n]
    }

    proof fn lemma_wf(&self) {
        broadcast use vstd::slice::axiom_spec_len;

        assert(vstd::slice::spec_slice_len(*self) == self@.len());
        IntRange::<usize>::lemma_of_size(self@.len() as int);
    }

    fn domain(&self) -> (r: IntRange<usize>) {
        IntRange::new(self.len())
    }

    fn get_index(&self, n: usize) -> (r: Option<&'a T>) {
        broadcast use vstd::slice::axiom_spec_len;

        proof {
            assert(vstd::slice::spec_slice_len(*self) == self@.len());
            IntRange::<usize>::lemma_of_size(self@.len() as int);
        }
        let s: &'a [T] = *self;
        if n < s.len() {
            Some(&s[n])
        } else {
            None
        }
    }
}

} // verus!
