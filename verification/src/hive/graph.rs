//! Directed graphs of numbered steps, kept by `petgraph`.
use petgraph::graph::{DiGraph, NodeIndex};
use petgraph::visit::EdgeRef;
use petgraph::Direction;
use vstd::prelude::*;

verus! {

/// `petgraph`'s graph.
#[verifier::external_type_specification]
#[verifier::external_body]
#[verifier::reject_recursive_types(N)]
#[verifier::reject_recursive_types(E)]
#[verifier::reject_recursive_types(Ty)]
#[verifier::reject_recursive_types(Ix)]
pub struct ExGraph<N, E, Ty, Ix>(petgraph::graph::Graph<N, E, Ty, Ix>);

/// `petgraph`'s mark of a directed graph.
#[verifier::external_type_specification]
#[verifier::external_body]
pub struct ExDirected(petgraph::Directed);

/// The weights of the nodes, by index.
pub uninterp spec fn graph_nodes(graph: DiGraph<usize, ()>) -> Seq<usize>;

/// The edges, from first to last added, each as the indices of its source and its target.
pub uninterp spec fn graph_edges(graph: DiGraph<usize, ()>) -> Seq<(usize, usize)>;

/// `Graph::new`: a graph without nodes and edges.
#[verifier::external_body]
pub(crate) fn new_graph() -> (graph: DiGraph<usize, ()>)
    ensures
        graph_nodes(graph) == Seq::<usize>::empty(),
        graph_edges(graph) == Seq::<(usize, usize)>::empty(),
{
    DiGraph::new()
}

/// `Graph::add_node`: adds a node behind the others and returns its index. It panics on a graph
/// with as many nodes as its index type, `u32`, can count.
#[verifier::external_body]
pub(crate) fn add_node(graph: &mut DiGraph<usize, ()>, weight: usize) -> (index: usize)
    requires
        graph_nodes(*old(graph)).len() < u32::MAX,
    ensures
        index == graph_nodes(*old(graph)).len(),
        graph_nodes(*final(graph)) == graph_nodes(*old(graph)).push(weight),
        graph_edges(*final(graph)) == graph_edges(*old(graph)),
{
    graph.add_node(weight).index()
}

/// `Graph::add_edge`: adds an edge behind the others, also where there is one between the same
/// nodes already. It panics where a node does not exist, and on a graph with as many edges as
/// its index type, `u32`, can count.
#[verifier::external_body]
pub(crate) fn add_edge(graph: &mut DiGraph<usize, ()>, from: usize, to: usize)
    requires
        from < graph_nodes(*old(graph)).len() <= u32::MAX,
        to < graph_nodes(*old(graph)).len(),
        graph_edges(*old(graph)).len() < u32::MAX,
    ensures
        graph_nodes(*final(graph)) == graph_nodes(*old(graph)),
        graph_edges(*final(graph)) == graph_edges(*old(graph)).push((from, to)),
{
    let _ = graph.add_edge(NodeIndex::new(from), NodeIndex::new(to), ());
}

/// Whether each edge leads from a lower rank to a higher one.
pub open spec fn ascends(edges: Seq<(usize, usize)>, rank: spec_fn(usize) -> int) -> bool {
    forall|i: int|
        0 <= i < edges.len() ==> rank((#[trigger] edges[i]).0) < rank(edges[i].1)
}

/// Whether no way along the edges leads back to where it started: the nodes can be ranked so
/// that each edge ascends.
pub open spec fn acyclic(edges: Seq<(usize, usize)>) -> bool {
    exists|rank: spec_fn(usize) -> int| #[trigger] ascends(edges, rank)
}

/// Whether `order` lists each of the first `count` indices once, the source of every edge
/// before its target.
pub open spec fn topological(
    order: Seq<usize>,
    count: nat,
    edges: Seq<(usize, usize)>,
) -> bool {
    &&& order.len() == count
    &&& order.no_duplicates()
    &&& forall|i: int| 0 <= i < order.len() ==> (#[trigger] order[i]) < count
    &&& forall|i: int|
        0 <= i < edges.len() ==> order.index_of((#[trigger] edges[i]).0) < order.index_of(
            edges[i].1,
        )
}

/// `petgraph::algo::toposort`: lists the nodes in a topological order, and fails exactly on a
/// graph with a cycle. Which of the possible orders comes out is left open.
#[verifier::external_body]
pub(crate) fn toposort(graph: &DiGraph<usize, ()>) -> (r: Option<Vec<usize>>)
    ensures
        r is Some <==> acyclic(graph_edges(*graph)),
        r matches Some(order) ==> topological(
            order@,
            graph_nodes(*graph).len(),
            graph_edges(*graph),
        ),
{
    let order = petgraph::algo::toposort(graph, None).ok()?;
    Some(order.into_iter().map(|node| node.index()).collect())
}

/// Whether no edge leads out of a node.
pub open spec fn is_sink(edges: Seq<(usize, usize)>, index: usize) -> bool {
    forall|i: int| 0 <= i < edges.len() ==> (#[trigger] edges[i]).0 != index
}

/// Whether `list` holds, in ascending order, those of the first `count` indices that no edge
/// leads out of.
pub open spec fn lists_sinks(list: Seq<usize>, count: nat, edges: Seq<(usize, usize)>) -> bool {
    &&& forall|i: int, j: int| 0 <= i < j < list.len() ==> list[i] < list[j]
    &&& forall|index: usize| #[trigger]
        list.contains(index) <==> index < count && is_sink(edges, index)
}

/// `Graph::externals(Outgoing)`: the nodes without outgoing edges, by ascending index.
#[verifier::external_body]
pub(crate) fn sinks(graph: &DiGraph<usize, ()>) -> (r: Vec<usize>)
    ensures
        lists_sinks(r@, graph_nodes(*graph).len(), graph_edges(*graph)),
{
    graph.externals(Direction::Outgoing).map(|node| node.index()).collect()
}

/// The sources of the edges into a node, those of the last added edges first.
pub open spec fn sources_into(edges: Seq<(usize, usize)>, index: usize) -> Seq<usize> {
    edges.filter(|edge: (usize, usize)| edge.1 == index).map_values(
        |edge: (usize, usize)| edge.0,
    ).reverse()
}

/// `Graph::edges_directed(.., Incoming)`: the sources of the edges into a node, in the reverse
/// of the order in which the edges were added.
#[verifier::external_body]
pub(crate) fn parents(graph: &DiGraph<usize, ()>, index: usize) -> (r: Vec<usize>)
    requires
        index < graph_nodes(*graph).len() <= u32::MAX,
    ensures
        r@ == sources_into(graph_edges(*graph), index),
{
    let edges = graph.edges_directed(NodeIndex::new(index), Direction::Incoming);
    edges.map(|edge| edge.source().index()).collect()
}

/// Indexing a graph, `graph[index]`: the weight of a node. It panics where the node does not
/// exist.
#[verifier::external_body]
pub(crate) fn weight(graph: &DiGraph<usize, ()>, index: usize) -> (r: usize)
    requires
        index < graph_nodes(*graph).len() <= u32::MAX,
    ensures
        r == graph_nodes(*graph)[index as int],
{
    graph[NodeIndex::new(index)]
}

} // verus!
