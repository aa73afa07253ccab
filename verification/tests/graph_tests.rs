use change_shelf::graph::{build_petgraph, DagInfo, DagNode};
use change_shelf::repo::CommitInfo;
use petgraph::graph::NodeIndex;
use petgraph::visit::EdgeRef;

fn node(id: u64, summary: &str) -> DagNode {
    DagNode {
        id,
        info: CommitInfo {
            commit_id: format!("{:x}", id),
            summary: summary.to_string(),
            author: "ada".to_string(),
            timestamp_secs: 0,
            timestamp_nanos: 0,
        },
    }
}

#[test]
fn nodes_keep_their_order_and_weights() {
    let dag = DagInfo {
        nodes: vec![node(10, "tip"), node(20, "middle"), node(30, "root")],
        edges: vec![(10, 20), (20, 30)],
    };
    let g = build_petgraph(&dag);
    assert_eq!(g.node_count(), 3);
    assert_eq!(g.edge_count(), 2);
    assert_eq!(g.node_weight(NodeIndex::new(0)), Some(&10));
    assert_eq!(g.node_weight(NodeIndex::new(1)), Some(&20));
    assert_eq!(g.node_weight(NodeIndex::new(2)), Some(&30));
}

#[test]
fn edges_point_from_child_to_parent() {
    let dag = DagInfo { nodes: vec![node(1, "tip"), node(2, "root")], edges: vec![(1, 2)] };
    let g = build_petgraph(&dag);
    let edge = g.edge_references().next().expect("one edge");
    assert_eq!(edge.source(), NodeIndex::new(0));
    assert_eq!(edge.target(), NodeIndex::new(1));
}

#[test]
fn edges_with_unknown_endpoints_are_dropped() {
    let dag = DagInfo {
        nodes: vec![node(1, "tip"), node(2, "root")],
        edges: vec![(1, 99), (99, 2), (1, 2)],
    };
    let g = build_petgraph(&dag);
    assert_eq!(g.node_count(), 2);
    assert_eq!(g.edge_count(), 1);
    let edge = g.edge_references().next().expect("the kept edge");
    assert_eq!(edge.source(), NodeIndex::new(0));
    assert_eq!(edge.target(), NodeIndex::new(1));
}

#[test]
fn an_empty_history_builds_an_empty_graph() {
    let dag = DagInfo { nodes: vec![], edges: vec![] };
    let g = build_petgraph(&dag);
    assert_eq!(g.node_count(), 0);
    assert_eq!(g.edge_count(), 0);
}
