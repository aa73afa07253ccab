//! The commit graph for the drawer's graph sketch, built on petgraph.
//!
//! The repository's history arrives as a [`DagInfo`]: one node per commit
//! and one edge per child-to-parent link. [`build_petgraph`] turns it into
//! a directed petgraph graph whose node weights are the commit keys;
//! edges whose endpoints are unknown are dropped rather than drawn. The
//! layout drawn from the graph is the host's affair.

use vstd::prelude::*;
use std::collections::HashMap;
use petgraph::graph::DiGraph;
use petgraph::graph::NodeIndex;
use crate::repo::CommitInfo;

verus! {

broadcast use vstd::std_specs::hash::group_hash_axioms;

#[verifier::external_type_specification]
#[verifier::external_body]
#[verifier::reject_recursive_types(N)]
#[verifier::reject_recursive_types(E)]
#[verifier::reject_recursive_types(Ty)]
#[verifier::reject_recursive_types(Ix)]
pub struct ExGraph<N, E, Ty, Ix>(petgraph::graph::Graph<N, E, Ty, Ix>);

#[verifier::external_type_specification]
#[verifier::external_body]
pub struct ExDirected(petgraph::Directed);

/// The weights of the graph's nodes, in the order they were added; a
/// node's position here is its petgraph index.
pub uninterp spec fn graph_node_seq(g: DiGraph<u64, ()>) -> Seq<u64>;

/// The graph's edges as pairs of node indices, in the order they were
/// added.
pub uninterp spec fn graph_edge_seq(g: DiGraph<u64, ()>) -> Seq<(usize, usize)>;

/// Relies on petgraph's `Graph::new`: the graph starts without nodes or
/// edges.
#[verifier::external_body]
fn digraph_new() -> (g: DiGraph<u64, ()>)
    ensures
        graph_node_seq(g) == Seq::<u64>::empty(),
        graph_edge_seq(g) == Seq::<(usize, usize)>::empty(),
{
    DiGraph::new()
}

/// Relies on petgraph's `Graph::add_node`: the node is appended, its
/// index is the previous node count, and it panics only with the node
/// count at the index type's maximum.
#[verifier::external_body]
fn graph_add_node(g: &mut DiGraph<u64, ()>, weight: u64) -> (idx: usize)
    requires
        graph_node_seq(*old(g)).len() < 0xFFFF_FFFF,
    ensures
        idx == graph_node_seq(*old(g)).len(),
        graph_node_seq(*final(g)) == graph_node_seq(*old(g)).push(weight),
        graph_edge_seq(*final(g)) == graph_edge_seq(*old(g)),
{
    g.add_node(weight).index()
}

/// Relies on petgraph's `Graph::add_edge`: the edge is appended, and it
/// panics only on a missing endpoint or with the edge count at the index
/// type's maximum.
#[verifier::external_body]
fn graph_add_edge(g: &mut DiGraph<u64, ()>, from: usize, to: usize)
    requires
        from < graph_node_seq(*old(g)).len(),
        to < graph_node_seq(*old(g)).len(),
        graph_edge_seq(*old(g)).len() < 0xFFFF_FFFF,
    ensures
        graph_node_seq(*final(g)) == graph_node_seq(*old(g)),
        graph_edge_seq(*final(g)) == graph_edge_seq(*old(g)).push((from, to)),
{
    g.add_edge(NodeIndex::new(from), NodeIndex::new(to), ());
}

/// One commit of the history: a key for the commit — unique within its
/// [`DagInfo`] — and what the drawer shows of it.
#[derive(Debug)]
pub struct DagNode {
    pub id: u64,
    pub info: CommitInfo,
}

/// A repository's history: nodes are commits, edges child-to-parent
/// links, both in the order the inspection reported them.
#[derive(Debug)]
pub struct DagInfo {
    pub nodes: Vec<DagNode>,
    pub edges: Vec<(u64, u64)>,
}

/// The commit keys, in node order.
pub open spec fn dag_node_ids(dag: DagInfo) -> Seq<u64> {
    dag.nodes@.map_values(|n: DagNode| n.id)
}

/// A well-formed history names each commit once.
pub open spec fn dag_wf(dag: DagInfo) -> bool {
    forall|i: int, j: int|
        0 <= i < j < dag.nodes@.len() ==> (#[trigger] dag.nodes@[i]).id != (
        #[trigger] dag.nodes@[j]).id
}

/// Whether both endpoints of `edge` name known commits.
pub open spec fn links_present(ids: Seq<u64>, edge: (u64, u64)) -> bool {
    ids.contains(edge.0) && ids.contains(edge.1)
}

/// The edges whose endpoints are known, as pairs of node positions, in
/// edge order.
pub open spec fn edge_positions(ids: Seq<u64>, edges: Seq<(u64, u64)>) -> Seq<(usize, usize)> {
    edges.filter(|e: (u64, u64)| links_present(ids, e)).map_values(
        |e: (u64, u64)| (ids.index_of(e.0) as usize, ids.index_of(e.1) as usize),
    )
}

/// Extending the history by one edge extends the kept edges by its
/// position pair exactly when both endpoints are known.
proof fn lemma_edge_positions_push(ids: Seq<u64>, edges: Seq<(u64, u64)>, e: (u64, u64))
    ensures
        edge_positions(ids, edges.push(e)) == if links_present(ids, e) {
            edge_positions(ids, edges).push(
                (ids.index_of(e.0) as usize, ids.index_of(e.1) as usize),
            )
        } else {
            edge_positions(ids, edges)
        },
{
    reveal(Seq::filter);
    assert(edges.push(e).drop_last() =~= edges);
    assert(edges.push(e).last() == e);
    if links_present(ids, e) {
        assert(edge_positions(ids, edges.push(e)) =~= edge_positions(ids, edges).push(
            (ids.index_of(e.0) as usize, ids.index_of(e.1) as usize),
        ));
    } else {
        assert(edge_positions(ids, edges.push(e)) =~= edge_positions(ids, edges));
    }
}

/// Builds the directed graph of a history: one node per commit, keyed by
/// its commit key, and one edge per child-to-parent link whose endpoints
/// are both known.
pub fn build_petgraph(dag: &DagInfo) -> (g: DiGraph<u64, ()>)
    requires
        dag_wf(*dag),
        dag.nodes@.len() < 0xFFFF_FFFF,
        dag.edges@.len() < 0xFFFF_FFFF,
    ensures
        graph_node_seq(g) == dag_node_ids(*dag),
        graph_edge_seq(g) == edge_positions(dag_node_ids(*dag), dag.edges@),
{
    let ghost ids = dag_node_ids(*dag);
    let mut g = digraph_new();
    let mut positions: HashMap<u64, usize> = HashMap::new();

    let n = dag.nodes.len();
    let mut i: usize = 0;
    while i < n
        invariant
            n == dag.nodes@.len(),
            n < 0xFFFF_FFFF,
            ids == dag_node_ids(*dag),
            dag_wf(*dag),
            0 <= i <= n,
            graph_node_seq(g) == ids.subrange(0, i as int),
            graph_edge_seq(g) == Seq::<(usize, usize)>::empty(),
            forall|k: u64| #[trigger]
                positions@.contains_key(k) ==> exists|j: int|
                    0 <= j < i && ids[j] == k && positions@[k] == j,
            forall|j: int|
                0 <= j < i ==> positions@.contains_key(#[trigger] ids[j]) && positions@[ids[j]]
                    == j,
        decreases n - i,
    {
        let id = dag.nodes[i].id;
        proof {
            assert(ids[i as int] == id);
            assert(ids.subrange(0, i + 1int) =~= ids.subrange(0, i as int).push(id));
        }
        let idx = graph_add_node(&mut g, id);
        positions.insert(id, idx);
        i = i + 1;
    }
    proof {
        assert(ids.subrange(0, n as int) =~= ids);
    }

    let m = dag.edges.len();
    let mut j: usize = 0;
    while j < m
        invariant
            m == dag.edges@.len(),
            m < 0xFFFF_FFFF,
            n == dag.nodes@.len(),
            ids == dag_node_ids(*dag),
            dag_wf(*dag),
            0 <= j <= m,
            graph_node_seq(g) == ids,
            graph_edge_seq(g) == edge_positions(ids, dag.edges@.subrange(0, j as int)),
            graph_edge_seq(g).len() <= j,
            forall|k: u64| #[trigger]
                positions@.contains_key(k) ==> exists|jj: int|
                    0 <= jj < n && ids[jj] == k && positions@[k] == jj,
            forall|jj: int|
                0 <= jj < n ==> positions@.contains_key(#[trigger] ids[jj]) && positions@[ids[jj]]
                    == jj,
        decreases m - j,
    {
        let edge = dag.edges[j];
        let ghost pre = dag.edges@.subrange(0, j as int);
        proof {
            assert(dag.edges@.subrange(0, j + 1int) =~= pre.push(edge));
            lemma_edge_positions_push(ids, pre, edge);
        }
        let child_pos = positions.get(&edge.0);
        let parent_pos = positions.get(&edge.1);
        match (child_pos, parent_pos) {
            (Some(c_ref), Some(p_ref)) => {
                let c = *c_ref;
                let p = *p_ref;
                proof {
                    assert(ids.contains(edge.0) && ids[c as int] == edge.0);
                    assert(ids.contains(edge.1) && ids[p as int] == edge.1);
                    let c0 = ids.index_of(edge.0);
                    let p0 = ids.index_of(edge.1);
                    assert(ids[c0] == edge.0 && 0 <= c0 < ids.len());
                    assert(ids[p0] == edge.1 && 0 <= p0 < ids.len());
                    assert(c0 == c as int && p0 == p as int);
                }
                graph_add_edge(&mut g, c, p);
            },
            _ => {
                proof {
                    if links_present(ids, edge) {
                        let c0 = choose|jj: int| 0 <= jj < ids.len() && ids[jj] == edge.0;
                        let p0 = choose|jj: int| 0 <= jj < ids.len() && ids[jj] == edge.1;
                        assert(positions@.contains_key(ids[c0]));
                        assert(positions@.contains_key(ids[p0]));
                        assert(false);
                    }
                }
            },
        }
        j = j + 1;
    }
    proof {
        assert(dag.edges@.subrange(0, m as int) =~= dag.edges@);
    }
    g
}

} // verus!
