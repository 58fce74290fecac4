//! A trait with associated types: a graph names its node and edge types
//! inside the trait body, and each method's behaviour is pinned by a spec
//! method that implementations fill in.

use vstd::prelude::*;

verus! {

/// A graph over nodes and edges chosen by the implementation.
pub trait Graph {
    type N;

    type E;

    /// Whether the graph connects the two nodes.
    spec fn spec_has_edge(&self, n1: &Self::N, n2: &Self::N) -> bool;

    /// The edges leaving a node.
    spec fn spec_edges(&self, n: &Self::N) -> Seq<Self::E>;

    fn has_edge(&self, n1: &Self::N, n2: &Self::N) -> (r: bool)
        ensures
            r == self.spec_has_edge(n1, n2),
    ;

    fn edges(&self, n: &Self::N) -> (r: Vec<Self::E>)
        ensures
            r@ == self.spec_edges(n),
    ;
}

/// A node with nothing in it.
pub struct Node;

/// An edge with nothing in it.
pub struct Edge;

/// A graph that connects every pair of nodes and hands out no edges.
pub struct MyGraph;

impl Graph for MyGraph {
    type N = Node;

    type E = Edge;

    open spec fn spec_has_edge(&self, n1: &Node, n2: &Node) -> bool {
        true
    }

    open spec fn spec_edges(&self, n: &Node) -> Seq<Edge> {
        Seq::empty()
    }

    fn has_edge(&self, n1: &Node, n2: &Node) -> (r: bool) {
        true
    }

    fn edges(&self, n: &Node) -> (r: Vec<Edge>) {
        let edges: Vec<Edge> = Vec::new();
        proof {
            assert(edges@ =~= Seq::<Edge>::empty());
        }
        edges
    }
}

} // verus!
