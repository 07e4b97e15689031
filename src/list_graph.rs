//! A directed graph stored as an edge list plus, for each vertex, the list
//! of the edges leaving it.
use vstd::prelude::*;

use crate::graph::{count_ends, DiGraph, Graph, OutEdges};
use crate::set::IndexedSet;
use crate::vec_map::VecMap;

verus! {

/// An edge of a [`ListGraph`]: its index and its two ends.
#[derive(Clone, Copy, Debug, Hash, PartialEq, Eq)]
pub struct Edge<V> {
    id: usize,
    tail: V,
    head: V,
}

impl<V> Edge<V> {
    /// The index of the edge in its graph.
    pub closed spec fn id_spec(&self) -> usize {
        self.id
    }

    /// The vertex the edge leaves.
    pub closed spec fn tail_spec(&self) -> V {
        self.tail
    }

    /// The vertex the edge enters.
    pub closed spec fn head_spec(&self) -> V {
        self.head
    }
}

/// The ends of an edge, tail first.
pub open spec fn edge_ends<V>(e: Edge<V>) -> (V, V) {
    (e.tail_spec(), e.head_spec())
}

/// A directed graph over the vertex set `V`, with adjacency lists.
pub struct ListGraph<V: IndexedSet> {
    edges: Vec<Edge<V::Element>>,
    outgoing_edges: VecMap<V, Vec<usize>>,
}

impl<V: IndexedSet> ListGraph<V> {
    /// Creates a graph on `vertices` with no edges.
    pub fn edgeless(vertices: V) -> (r: Self)
        requires
            vertices.wf(),
        ensures
            r.graph_wf(),
            r.vertex_set_spec() == vertices,
            r.edge_list_spec().len() == 0,
    {
        let n = vertices.len();
        let mut lists: Vec<Vec<usize>> = Vec::new();
        let mut i: usize = 0;
        while i < n
            invariant
                n == vertices.elements().len(),
                i <= n,
                lists@.len() == i,
                forall|k: int| 0 <= k < i ==> (#[trigger] lists@[k])@.len() == 0,
            decreases n - i,
        {
            lists.push(Vec::new());
            i += 1;
        }
        let r = ListGraph { edges: Vec::new(), outgoing_edges: VecMap::new(vertices, lists) };
        proof {
            assert forall|k: int| 0 <= k < r.outgoing_edges@.len() implies (
            #[trigger] r.outgoing_edges@[k])@.len() == count_ends(
                r.edges@,
                |e: Edge<V::Element>| edge_ends(e),
                vertices.elements()[k],
                false,
            ) by {
                assert(r.edges@.filter(
                    |e: Edge<V::Element>|
                        if false {
                            edge_ends(e).1 == vertices.elements()[k]
                        } else {
                            edge_ends(e).0 == vertices.elements()[k]
                        },
                ) =~= Seq::empty());
            }
        }
        r
    }

    /// The vertex set.
    pub closed spec fn vertex_set_spec(&self) -> V {
        self.outgoing_edges.domain_spec()
    }

    /// The edges, in the order of their indices.
    pub closed spec fn edge_list_spec(&self) -> Seq<Edge<V::Element>> {
        self.edges@
    }

    /// The adjacency lists are aligned with the vertex set, and each has one
    /// entry per edge leaving its vertex.
    pub closed spec fn graph_wf(&self) -> bool {
        &&& self.outgoing_edges.valid()
        &&& forall|k: int|
            0 <= k < self.outgoing_edges@.len() ==> (#[trigger] self.outgoing_edges@[k])@.len()
                == count_ends(
                self.edges@,
                |e: Edge<V::Element>| edge_ends(e),
                self.outgoing_edges.domain_spec().elements()[k],
                false,
            )
    }
}

impl<V: IndexedSet> Graph for ListGraph<V> where V::Element: Copy {
    type Vertices = V;

    type Edge = Edge<V::Element>;

    open spec fn vertex_set(&self) -> V {
        self.vertex_set_spec()
    }

    open spec fn edge_list(&self) -> Seq<Edge<V::Element>> {
        self.edge_list_spec()
    }

    open spec fn ends_of(&self, edge: Edge<V::Element>) -> (V::Element, V::Element) {
        edge_ends(edge)
    }

    open spec fn wf(&self) -> bool {
        self.graph_wf()
    }

    proof fn lemma_wf(&self) {
        self.outgoing_edges.lemma_valid();
    }

    fn vertices(&self) -> (r: &V) {
        self.outgoing_edges.domain_ref()
    }

    fn num_edges(&self) -> (r: usize) {
        self.edges.len()
    }

    fn ends(&self, edge: &Edge<V::Element>) -> (r: [V::Element; 2]) {
        let r = [edge.tail, edge.head];
        proof {
            assert(r@ =~= seq![edge.tail, edge.head]);
        }
        r
    }
}

impl<V: IndexedSet> DiGraph for ListGraph<V> where V::Element: Copy {
    fn tail(&self, edge: &Edge<V::Element>) -> (r: V::Element) {
        edge.tail
    }

    fn head(&self, edge: &Edge<V::Element>) -> (r: V::Element) {
        edge.head
    }
}

impl<V: IndexedSet> OutEdges for ListGraph<V> where V::Element: Copy {
    fn out_degree(&self, vertex: V::Element) -> (r: usize) {
        proof {
            self.outgoing_edges.lemma_valid();
            self.vertex_set_spec().lemma_elements();
            assert((|e: Edge<V::Element>| self.ends_of(e)) =~= (|e: Edge<V::Element>| edge_ends(e)));
        }
        let n = self.outgoing_edges.domain_ref().index_of(vertex).unwrap();
        self.outgoing_edges.get_ref_nth(n).len()
    }
}

} // verus!
