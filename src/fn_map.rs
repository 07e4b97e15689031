//! A map whose images are computed by a function instead of stored.
use vstd::prelude::*;

use crate::map::IndexedMap;
use crate::set::IndexedSet;

verus! {

/// The ordered map given by a domain and a function: the image of the
/// domain element `x` with index `n` is `function(n, x)`.
#[derive(Clone, Copy, Debug, PartialEq, Eq)]
pub struct FnMap<D, F> {
    domain: D,
    function: F,
}

impl<D, F> FnMap<D, F> {
    /// The domain.
    pub closed spec fn domain_spec(&self) -> D {
        self.domain
    }

    /// The function that computes the images.
    pub closed spec fn function(&self) -> F {
        self.function
    }

    /// Creates a new [`FnMap`] from a domain and a function.
    pub fn new(domain: D, function: F) -> (r: Self)
        ensures
            r.domain_spec() == domain,
            r.function() == function,
    {
        FnMap { domain, function }
    }
}

impl<D: IndexedSet + Copy, F, T> IndexedMap for FnMap<D, F> where F: Fn(usize, D::Element) -> T {
    type Domain = D;

    type Output = T;

    open spec fn domain_view(&self) -> D {
        self.domain_spec()
    }

    /// The domain is valid and the function accepts each domain element
    /// together with its index.
    open spec fn wf(&self) -> bool {
        &&& self.domain_spec().wf()
        &&& forall|n: usize|
            n < self.domain_spec().elements().len() ==> #[trigger] self.function().requires(
                (n, self.domain_spec().elements()[n as int]),
            )
    }

    open spec fn is_image(&self, n: int, y: T) -> bool {
        &&& 0 <= n < self.domain_view().elements().len()
        &&& self.function().ensures((n as usize, self.domain_view().elements()[n]), y)
    }

    proof fn lemma_wf(&self) {
    }

    fn domain(&self) -> (r: D) {
        self.domain
    }

    fn get_index(&self, n: usize) -> (r: Option<T>) {
        match self.domain.index(n) {
            Some(x) => {
                assert(self.function().requires((n, x)));
                Some((self.function)(n, x))
            },
            None => None,
        }
    }
}

} // verus!
