//! Std containers of distinct elements, seen as indexed sets.
use vstd::laws_eq::obeys_concrete_eq;
use vstd::prelude::*;

use crate::set::IndexedSet;

verus! {

/// The position of `element` in `s`, found by comparing it with each item
/// in order.
fn position_in<E: PartialEq>(s: &[E], element: &E) -> (r: Option<usize>)
    requires
        obeys_concrete_eq::<E>(),
    ensures
        match r {
            Some(i) => i < s@.len() && s@[i as int] == *element && forall|k: int|
                0 <= k < i ==> s@[k] != *element,
            None => !s@.contains(*element),
        },
{
    let n = s.len();
    let mut i: usize = 0;
    while i < n
        invariant
            obeys_concrete_eq::<E>(),
            n == s@.len(),
            i <= n,
            forall|k: int| 0 <= k < i ==> s@[k] != *element,
        decreases n - i,
    {
        proof {
            reveal(obeys_concrete_eq);
        }
        if s[i] == *element {
            return Some(i);
        }
        i += 1;
    }
    None
}

impl<'a, E: PartialEq> IndexedSet for &'a [E] {
    type Element = &'a E;

    open spec fn elements(&self) -> Seq<&'a E> {
        Seq::new(self@.len(), |i: int| &self@[i])
    }

    /// The items are distinct, and told apart by `==`, which must be the
    /// identity on `E`.
    open spec fn wf(&self) -> bool {
        &&& obeys_concrete_eq::<E>()
        &&& self@.no_duplicates()
    }

    proof fn lemma_elements(&self) {
        broadcast use vstd::slice::axiom_spec_len;

        assert(vstd::slice::spec_slice_len(*self) == self@.len());
    }

    fn len(&self) -> (r: usize) {
        (**self).len()
    }

    fn index(&self, index: usize) -> (r: Option<&'a E>) {
        let s: &'a [E] = *self;
        if index < s.len() {
            Some(&s[index])
        } else {
            None
        }
    }

    fn index_of(&self, element: &'a E) -> (r: Option<usize>) {
        let r = position_in(*self, element);
        proof {
            if self.elements().contains(element) {
                let k = choose|k: int| 0 <= k < self.elements().len() && self.elements()[k] == element;
                assert(self@[k] == *element);
            }
        }
        r
    }
}

impl<'a, E: PartialEq> IndexedSet for &'a Vec<E> {
    type Element = &'a E;

    open spec fn elements(&self) -> Seq<&'a E> {
        Seq::new(self@.len(), |i: int| &self@[i])
    }

    /// The items are distinct, and told apart by `==`, which must be the
    /// identity on `E`.
    open spec fn wf(&self) -> bool {
        &&& obeys_concrete_eq::<E>()
        &&& self@.no_duplicates()
    }

    proof fn lemma_elements(&self) {
        broadcast use vstd::std_specs::vec::axiom_spec_len;

        assert(vstd::std_specs::vec::spec_vec_len(*self) == self@.len());
    }

    fn len(&self) -> (r: usize) {
        (**self).len()
    }

    fn index(&self, index: usize) -> (r: Option<&'a E>) {
        let v: &'a Vec<E> = *self;
        if index < v.len() {
            Some(&v[index])
        } else {
            None
        }
    }

    fn index_of(&self, element: &'a E) -> (r: Option<usize>) {
        let r = position_in(self.as_slice(), element);
        proof {
            if self.elements().contains(element) {
                let k = choose|k: int| 0 <= k < self.elements().len() && self.elements()[k] == element;
                assert(self@[k] == *element);
            }
        }
        r
    }
}

/// The elements of an `Option` seen as a sequence: empty or one item.
pub open spec fn option_items<E>(o: Option<E>) -> Seq<E> {
    match o {
        Some(x) => seq![x],
        None => Seq::empty(),
    }
}

impl<E: Copy + PartialEq> IndexedSet for Option<E> {
    type Element = E;

    open spec fn elements(&self) -> Seq<E> {
        option_items(*self)
    }

    /// Elements are told apart by `==`, which must be the identity on `E`.
    open spec fn wf(&self) -> bool {
        obeys_concrete_eq::<E>()
    }

    proof fn lemma_elements(&self) {
    }

    fn len(&self) -> (r: usize) {
        if self.is_some() {
            1
        } else {
            0
        }
    }

    fn index(&self, index: usize) -> (r: Option<E>) {
        if index == 0 {
            *self
        } else {
            None
        }
    }

    fn index_of(&self, element: E) -> (r: Option<usize>) {
        proof {
            reveal(obeys_concrete_eq);
        }
        match self {
            Some(x) => {
                if *x == element {
                    Some(0)
                } else {
                    proof {
                        assert(!self.elements().contains(element)) by {
                            if self.elements().contains(element) {
                                assert(self.elements()[0] == element);
                            }
                        }
                    }
                    None
                }
            },
            None => None,
        }
    }
}

impl<'a, E: PartialEq> IndexedSet for &'a Option<E> {
    type Element = &'a E;

    open spec fn elements(&self) -> Seq<&'a E> {
        match **self {
            Some(x) => seq![&x],
            None => Seq::empty(),
        }
    }

    /// Elements are told apart by `==`, which must be the identity on `E`.
    open spec fn wf(&self) -> bool {
        obeys_concrete_eq::<E>()
    }

    proof fn lemma_elements(&self) {
    }

    fn len(&self) -> (r: usize) {
        if self.is_some() {
            1
        } else {
            0
        }
    }

    fn index(&self, index: usize) -> (r: Option<&'a E>) {
        let o: &'a Option<E> = *self;
        if index == 0 {
            o.as_ref()
        } else {
            None
        }
    }

    fn index_of(&self, element: &'a E) -> (r: Option<usize>) {
        proof {
            reveal(obeys_concrete_eq);
        }
        let o: &'a Option<E> = *self;
        match o {
            Some(x) => {
                if *x == *element {
                    Some(0)
                } else {
                    proof {
                        assert(!self.elements().contains(element)) by {
                            if self.elements().contains(element) {
                                assert(self.elements()[0] == element);
                            }
                        }
                    }
                    None
                }
            },
            None => None,
        }
    }
}

} // verus!
