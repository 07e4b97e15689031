//! Graph interfaces built on indexed sets: a graph has a vertex set and a
//! list of edges, each edge with two end vertices.
use vstd::prelude::*;

use crate::set::IndexedSet;

verus! {

/// A graph whose vertices form an indexed set.
pub trait Graph: Sized {
    /// The type of the vertex set.
    type Vertices: IndexedSet;

    /// The type of an edge.
    type Edge;

    /// The vertex set.
    spec fn vertex_set(&self) -> Self::Vertices;

    /// The edges, in the order of their indices.
    spec fn edge_list(&self) -> Seq<Self::Edge>;

    /// The two ends of an edge; for a directed graph, tail first.
    spec fn ends_of(&self, edge: Self::Edge) -> (
        <Self::Vertices as IndexedSet>::Element,
        <Self::Vertices as IndexedSet>::Element,
    );

    /// The graph's own invariant; it includes that of the vertex set.
    spec fn wf(&self) -> bool;

    proof fn lemma_wf(&self)
        requires
            self.wf(),
        ensures
            self.vertex_set().wf(),
    ;

    /// Returns the vertex set.
    fn vertices(&self) -> (r: &Self::Vertices)
        requires
            self.wf(),
        ensures
            *r == self.vertex_set(),
    ;

    /// Returns the number of vertices.
    fn num_vertices(&self) -> (r: usize)
        requires
            self.wf(),
        ensures
            r == self.vertex_set().elements().len(),
    {
        proof {
            self.lemma_wf();
        }
        self.vertices().len()
    }

    /// Returns the number of edges.
    fn num_edges(&self) -> (r: usize)
        requires
            self.wf(),
        ensures
            r == self.edge_list().len(),
    ;

    /// Returns the two ends of an edge.
    fn ends(&self, edge: &Self::Edge) -> (r: [<Self::Vertices as IndexedSet>::Element; 2])
        requires
            self.wf(),
        ensures
            r@ == seq![self.ends_of(*edge).0, self.ends_of(*edge).1],
    ;
}

/// An undirected graph.
pub trait UnGraph: Graph {

}

/// A directed graph: each edge goes from its tail to its head.
pub trait DiGraph: Graph {
    /// Returns the tail of an edge.
    fn tail(&self, edge: &Self::Edge) -> (r: <Self::Vertices as IndexedSet>::Element)
        requires
            self.wf(),
        ensures
            r == self.ends_of(*edge).0,
    ;

    /// Returns the head of an edge.
    fn head(&self, edge: &Self::Edge) -> (r: <Self::Vertices as IndexedSet>::Element)
        requires
            self.wf(),
        ensures
            r == self.ends_of(*edge).1,
    ;
}

/// The number of edges of `edges` whose end selected by `at_head` is `v`.
pub open spec fn count_ends<E, V>(
    edges: Seq<E>,
    ends: spec_fn(E) -> (V, V),
    v: V,
    at_head: bool,
) -> nat {
    edges.filter(|e: E| if at_head { ends(e).1 == v } else { ends(e).0 == v }).len()
}

/// A directed graph that can list the edges entering a vertex.
pub trait InEdges: DiGraph {
    /// Returns the number of edges whose head is `vertex`.
    fn in_degree(&self, vertex: <Self::Vertices as IndexedSet>::Element) -> (r: usize)
        requires
            self.wf(),
        ensures
            r == count_ends(self.edge_list(), |e: Self::Edge| self.ends_of(e), vertex, true),
    ;
}

/// A directed graph that can list the edges leaving a vertex.
pub trait OutEdges: DiGraph {
    /// Returns the number of edges whose tail is `vertex`.
    fn out_degree(&self, vertex: <Self::Vertices as IndexedSet>::Element) -> (r: usize)
        requires
            self.wf(),
            self.vertex_set().elements().contains(vertex),
        ensures
            r == count_ends(self.edge_list(), |e: Self::Edge| self.ends_of(e), vertex, false),
    ;
}

} // verus!
