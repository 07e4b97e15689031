//! The indexed-set contract: a finite set whose elements are numbered
//! `0..len` in iteration order.
use vstd::laws_eq::obeys_concrete_eq;
use vstd::prelude::*;

verus! {

/// The element at index `i` of `s`, or `None` if `i` is out of range.
pub open spec fn element_at<E>(s: Seq<E>, i: int) -> Option<E> {
    if 0 <= i < s.len() {
        Some(s[i])
    } else {
        None
    }
}

/// `r` is the answer to "where is `x` in `s`?": the index of `x`, or `None`
/// when `s` does not contain `x`.
pub open spec fn is_position<E>(s: Seq<E>, x: E, r: Option<usize>) -> bool {
    match r {
        Some(i) => i < s.len() && s[i as int] == x,
        None => forall|k: int| 0 <= k < s.len() ==> s[k] != x,
    }
}

/// A finite, ordered set whose elements are indexed in the range `0..len()`.
///
/// `elements()` is the set in iteration order; it has no duplicates, so
/// `index` and `index_of` are mutual inverses.
pub trait IndexedSet: Sized {
    /// The type of the set elements.
    type Element;

    /// The elements in ascending order of their indices.
    spec fn elements(&self) -> Seq<Self::Element>;

    /// The set's own invariant.
    spec fn wf(&self) -> bool;

    proof fn lemma_elements(&self)
        requires
            self.wf(),
        ensures
            self.elements().no_duplicates(),
            self.elements().len() <= usize::MAX,
    ;

    /// Returns the cardinality of the set.
    fn len(&self) -> (r: usize)
        requires
            self.wf(),
        ensures
            r == self.elements().len(),
    ;

    /// Returns the element of a given index, or `None` if out of range.
    fn index(&self, index: usize) -> (r: Option<Self::Element>)
        requires
            self.wf(),
        ensures
            r == element_at(self.elements(), index as int),
    ;

    /// Returns the index of the specified element, or `None` if the set does
    /// not contain it.
    fn index_of(&self, element: Self::Element) -> (r: Option<usize>)
        requires
            self.wf(),
        ensures
            is_position(self.elements(), element, r),
    ;

    /// Returns `true` if the set contains the specified element.
    fn contains(&self, element: Self::Element) -> (r: bool)
        requires
            self.wf(),
        ensures
            r == self.elements().contains(element),
    {
        self.index_of(element).is_some()
    }

    /// Returns `true` if the set is empty.
    fn is_empty(&self) -> (r: bool)
        requires
            self.wf(),
        ensures
            r == (self.elements().len() == 0),
    {
        self.len() == 0
    }

    /// The elements in ascending order of their indices.
    fn to_vec(&self) -> (r: Vec<Self::Element>)
        requires
            self.wf(),
        ensures
            r@ == self.elements(),
    {
        let n = self.len();
        let mut out: Vec<Self::Element> = Vec::new();
        let mut i: usize = 0;
        while i < n
            invariant
                self.wf(),
                n == self.elements().len(),
                i <= n,
                out@ == self.elements().subrange(0, i as int),
            decreases n - i,
        {
            let x = self.index(i).unwrap();
            out.push(x);
            i += 1;
            proof {
                assert(out@ =~= self.elements().subrange(0, i as int));
            }
        }
        proof {
            assert(out@ =~= self.elements());
        }
        out
    }
}

/// Any two lookups that meet the contract of `index_of` on the same set
/// agree: an overriding `index_of` returns what the scan in iteration order
/// ([`scan_index_of`]) returns.
pub proof fn lemma_index_of_agrees<S: IndexedSet>(
    set: &S,
    element: S::Element,
    by_override: Option<usize>,
    by_scan: Option<usize>,
)
    requires
        set.wf(),
        is_position(set.elements(), element, by_override),
        is_position(set.elements(), element, by_scan),
    ensures
        by_override == by_scan,
{
    set.lemma_elements();
    if by_override is Some && by_scan is None {
        assert(set.elements().contains(element));
    }
    if by_override is None && by_scan is Some {
        assert(set.elements().contains(element));
    }
}

/// The index of `element` found by comparing it with each element in
/// iteration order.
pub fn scan_index_of<S: IndexedSet>(set: &S, element: &S::Element) -> (r: Option<usize>) where
    S::Element: PartialEq,
    requires
        set.wf(),
        obeys_concrete_eq::<S::Element>(),
    ensures
        is_position(set.elements(), *element, r),
{
    let n = set.len();
    let mut i: usize = 0;
    while i < n
        invariant
            set.wf(),
            obeys_concrete_eq::<S::Element>(),
            n == set.elements().len(),
            i <= n,
            forall|k: int| 0 <= k < i ==> set.elements()[k] != *element,
        decreases n - i,
    {
        let x = set.index(i).unwrap();
        proof {
            reveal(obeys_concrete_eq);
        }
        if x == *element {
            return Some(i);
        }
        i += 1;
    }
    None
}

/// The cardinality found by taking elements in iteration order until there
/// is none left.
pub fn scan_len<S: IndexedSet>(set: &S) -> (r: usize)
    requires
        set.wf(),
    ensures
        r == set.elements().len(),
{
    proof {
        set.lemma_elements();
    }
    let mut i: usize = 0;
    while set.index(i).is_some()
        invariant
            set.wf(),
            i <= set.elements().len() <= usize::MAX,
        decreases set.elements().len() - i,
    {
        i += 1;
    }
    i
}

} // verus!
