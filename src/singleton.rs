//! The one-element set.
use vstd::prelude::*;
use vstd::laws_eq::obeys_concrete_eq;

use crate::set::IndexedSet;

verus! {

/// A singleton (set of cardinality one).
#[derive(Clone, Copy, Debug, PartialEq, Eq, Hash)]
pub struct Singleton<T> {
    element: T,
}

impl<T> Singleton<T> {
    /// The held element.
    pub closed spec fn element(&self) -> T {
        self.element
    }

    /// Creates a new [`Singleton`].
    pub fn new(element: T) -> (r: Self)
        ensures
            r.element() == element,
    {
        Singleton { element }
    }
}

impl<T: Copy + PartialEq> IndexedSet for Singleton<T> {
    type Element = T;

    open spec fn elements(&self) -> Seq<T> {
        seq![self.element()]
    }

    /// Elements are told apart by `==`, which must be the identity on `T`.
    open spec fn wf(&self) -> bool {
        obeys_concrete_eq::<T>()
    }

    proof fn lemma_elements(&self) {
    }

    fn len(&self) -> (r: usize) {
        1
    }

    fn index(&self, index: usize) -> (r: Option<T>) {
        if index == 0 {
            Some(self.element)
        } else {
            None
        }
    }

    fn index_of(&self, element: T) -> (r: Option<usize>) {
        proof {
            reveal(obeys_concrete_eq);
        }
        if self.element == element {
            Some(0)
        } else {
            proof {
                assert(!self.elements().contains(element)) by {
                    if self.elements().contains(element) {
                        assert(self.elements()[0] == element);
                    }
                }
            }
            None
        }
    }
}

impl<'a, T: PartialEq> IndexedSet for &'a Singleton<T> {
    type Element = &'a T;

    open spec fn elements(&self) -> Seq<&'a T> {
        seq![&self.element()]
    }

    /// Elements are told apart by `==`, which must be the identity on `T`.
    open spec fn wf(&self) -> bool {
        obeys_concrete_eq::<T>()
    }

    proof fn lemma_elements(&self) {
    }

    fn len(&self) -> (r: usize) {
        1
    }

    fn index(&self, index: usize) -> (r: Option<&'a T>) {
        let s: &'a Singleton<T> = *self;
        if index == 0 {
            Some(&s.element)
        } else {
            None
        }
    }

    fn index_of(&self, element: &'a T) -> (r: Option<usize>) {
        proof {
            reveal(obeys_concrete_eq);
        }
        if self.element == *element {
            Some(0)
        } else {
            proof {
                assert(!self.elements().contains(element)) by {
                    if self.elements().contains(element) {
                        assert(self.elements()[0] == element);
                    }
                }
            }
            None
        }
    }
}

} // verus!
