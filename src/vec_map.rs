//! A map backed by a vector aligned with the domain's index order.
use vstd::prelude::*;

use crate::map::IndexedMap;
use crate::set::{element_at, is_position, IndexedSet};

verus! {

/// An ordered map whose images are stored in a [`Vec`], the `n`th entry
/// being the image of the `n`th domain element.
#[derive(Clone, Debug, PartialEq, Eq)]
pub struct VecMap<D, T> {
    domain: D,
    image: Vec<T>,
}

impl<D: IndexedSet, T> View for VecMap<D, T> {
    type V = Seq<T>;

    /// The images in the domain's index order.
    closed spec fn view(&self) -> Seq<T> {
        self.image@
    }
}

impl<D: IndexedSet, T> VecMap<D, T> {
    /// The domain.
    pub closed spec fn domain_spec(&self) -> D {
        self.domain
    }

    /// The domain is valid and as long as the image.
    pub closed spec fn valid(&self) -> bool {
        &&& self.domain.wf()
        &&& self.domain.elements().len() == self.image@.len()
    }

    pub proof fn lemma_valid(&self)
        requires
            self.valid(),
        ensures
            self.domain_spec().wf(),
            self.domain_spec().elements().len() == self@.len(),
    {
    }

    /// Creates a new [`VecMap`]; the `n`th entry of `image` is the image of
    /// the `n`th element of `domain`.
    ///
    /// `domain` and `image` must have the same length.
    pub fn new(domain: D, image: Vec<T>) -> (r: Self)
        requires
            domain.wf(),
            domain.elements().len() == image@.len(),
        ensures
            r.valid(),
            r.domain_spec() == domain,
            r@ == image@,
    {
        VecMap { domain, image }
    }

    /// Returns the domain.
    pub fn domain_ref(&self) -> (r: &D)
        ensures
            *r == self.domain_spec(),
    {
        &self.domain
    }

    /// Returns a reference to the image of the `n`th element of the domain.
    pub fn get_ref_nth(&self, n: usize) -> (r: &T)
        requires
            n < self@.len(),
        ensures
            *r == self@[n as int],
    {
        &self.image[n]
    }

    /// Returns a mutable reference to the image of a given element, or
    /// `None` if the domain does not contain it.
    pub fn get_mut(&mut self, element: D::Element) -> (r: Option<&mut T>)
        requires
            old(self).valid(),
        ensures
            r is Some <==> old(self).domain_spec().elements().contains(element),
            forall|n: usize|
                is_position(old(self).domain_spec().elements(), element, Some(n)) ==> {
                    &&& r matches Some(m)
                    &&& *m == old(self)@[n as int]
                    &&& final(self)@ == old(self)@.update(n as int, *final(m))
                },
            r is None ==> final(self)@ == old(self)@,
            final(self).domain_spec() == old(self).domain_spec(),
            final(self).valid(),
    {
        proof {
            self.domain.lemma_elements();
        }
        match self.domain.index_of(element) {
            Some(n) => Some(&mut self.image[n]),
            None => None,
        }
    }

    /// Returns a mutable reference to the image of the `n`th element of the
    /// domain, or `None` if out of range.
    pub fn get_mut_nth(&mut self, n: usize) -> (r: Option<&mut T>)
        requires
            old(self).valid(),
        ensures
            r is Some <==> n < old(self)@.len(),
            r matches Some(m) ==> {
                &&& *m == old(self)@[n as int]
                &&& final(self)@ == old(self)@.update(n as int, *final(m))
            },
            r is None ==> final(self)@ == old(self)@,
            final(self).domain_spec() == old(self).domain_spec(),
            final(self).valid(),
    {
        if n < self.image.len() {
            Some(&mut self.image[n])
        } else {
            None
        }
    }
}

impl<D: IndexedSet, T: Copy> VecMap<D, T> {
    /// Overwrites every image with `value`.
    pub fn fill(&mut self, value: T)
        requires
            old(self).valid(),
        ensures
            final(self).valid(),
            final(self).domain_spec() == old(self).domain_spec(),
            final(self)@ == Seq::new(old(self)@.len(), |n: int| value),
    {
        let n = self.image.len();
        let mut i: usize = 0;
        while i < n
            invariant
                self.valid(),
                self.domain == old(self).domain,
                n == self.image@.len() == old(self).image@.len(),
                i <= n,
                forall|k: int| 0 <= k < i ==> self.image@[k] == value,
            decreases n - i,
        {
            self.image.set(i, value);
            i += 1;
        }
        proof {
            assert(self@ =~= Seq::new(old(self)@.len(), |n: int| value));
        }
    }
}

impl<D: IndexedSet + Copy, T: Copy> IndexedMap for VecMap<D, T> {
    type Domain = D;

    type Output = T;

    open spec fn domain_view(&self) -> D {
        self.domain_spec()
    }

    open spec fn wf(&self) -> bool {
        self.valid()
    }

    open spec fn is_image(&self, n: int, y: T) -> bool {
        element_at(self@, n) == Some(y)
    }

    proof fn lemma_wf(&self) {
        self.lemma_valid();
    }

    fn domain(&self) -> (r: D) {
        self.domain
    }

    fn get_index(&self, n: usize) -> (r: Option<T>) {
        if n < self.image.len() {
            Some(self.image[n])
        } else {
            None
        }
    }
}

} // verus!
