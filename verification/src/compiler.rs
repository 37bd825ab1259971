//! Compiles a validated graph into a dataflow topology description:
//! one node per graph node with its behavior kind, one channel per
//! edge routed by its condition, and a merge point wherever several
//! edges fan into one target.

use vstd::prelude::*;
use vstd::string::StringExecFns;

use crate::nodes::validate_graph::validate;
use crate::strutil;
use crate::strutil::{spec_has_prefix, spec_lower, spec_trim};
use crate::types::attractor_edge::AttractorEdge;
use crate::types::attractor_graph::AttractorGraph;
use crate::types::attractor_node::{spec_is_exit, spec_is_start, AttractorNode};

verus! {

/// True when an edge condition routes from the error port: it reads
/// `outcome=fail` or `outcome=error`, trimmed, lowercased, with any
/// suffix allowed.
pub open spec fn spec_condition_is_outcome_error(cond: Option<Seq<char>>) -> bool {
    match cond {
        Some(c) => spec_has_prefix(spec_lower(spec_trim(c)), "outcome=fail"@) || spec_has_prefix(
            spec_lower(spec_trim(c)),
            "outcome=error"@,
        ),
        None => false,
    }
}

/// Decides whether an edge condition routes from the error port.
pub fn condition_is_outcome_error(cond: Option<&str>) -> (r: bool)
    ensures
        r == spec_condition_is_outcome_error(match cond {
            Some(c) => Some(c@),
            None => None,
        }),
{
    match cond {
        Some(c) => {
            let t = strutil::lower_str(strutil::trim_str(c));
            let r = strutil::has_prefix(t.as_str(), "outcome=fail") || strutil::has_prefix(
                t.as_str(),
                "outcome=error",
            );
            r
        },
        None => false,
    }
}

/// The behavior a topology node runs.
#[derive(Debug, Clone)]
pub enum TopologyKind {
    /// Pass-through, used for start and exit nodes.
    Identity,
    /// A shell command.
    Exec(String),
    /// The external agent with this prompt.
    Codergen(String),
}

/// One node of the compiled topology.
#[derive(Debug, Clone)]
pub struct TopologyNode {
    pub id: String,
    pub kind: TopologyKind,
}

/// One channel of the compiled topology.
#[derive(Debug, Clone)]
pub struct Channel {
    pub from_node: String,
    pub from_port: String,
    pub to_node: String,
    pub to_port: String,
}

/// One merge point: a fan-in of `inputs` channels into one target.
#[derive(Debug, Clone)]
pub struct MergeSpec {
    pub id: String,
    pub target: String,
    pub inputs: usize,
}

/// The compiled topology: nodes, merge points, one channel per graph
/// edge, one channel per merge output, and the external entry and exit.
#[derive(Debug)]
pub struct Topology {
    pub nodes: Vec<TopologyNode>,
    pub merges: Vec<MergeSpec>,
    pub edge_channels: Vec<Channel>,
    pub merge_channels: Vec<Channel>,
    pub entry_id: String,
    pub exit_id: String,
}

/// The source port an edge leaves from.
pub open spec fn spec_edge_port(e: AttractorEdge) -> Seq<char> {
    if spec_condition_is_outcome_error(strutil::opt_view(e.condition)) {
        "error"@
    } else {
        "out"@
    }
}

/// How many edges target the given node.
pub open spec fn spec_in_degree(edges: Seq<AttractorEdge>, to: Seq<char>) -> int
    decreases edges.len(),
{
    if edges.len() == 0 {
        0
    } else {
        spec_in_degree(edges.drop_last(), to) + (if edges.last().to_node@ == to {
            1int
        } else {
            0int
        })
    }
}

/// How many edges before `i` target the same node as edge `i`.
pub open spec fn spec_rank(edges: Seq<AttractorEdge>, i: int) -> int {
    spec_in_degree(edges.take(i), edges[i].to_node@)
}

/// The in-degree is never negative and at most the edge count.
proof fn lemma_in_degree_bounds(edges: Seq<AttractorEdge>, to: Seq<char>)
    ensures
        0 <= spec_in_degree(edges, to) <= edges.len(),
    decreases edges.len(),
{
    if edges.len() > 0 {
        lemma_in_degree_bounds(edges.drop_last(), to);
    }
}

/// An edge into `to` before position `i` makes the prefix in-degree
/// positive.
proof fn lemma_in_degree_pos(edges: Seq<AttractorEdge>, to: Seq<char>, j0: int, i: int)
    requires
        0 <= j0 < i <= edges.len(),
        edges[j0].to_node@ == to,
    ensures
        spec_in_degree(edges.take(i), to) >= 1,
    decreases i,
{
    lemma_in_degree_bounds(edges.take(i).drop_last(), to);
    if j0 == i - 1 {
        assert(edges.take(i).last() == edges[j0]);
    } else {
        lemma_in_degree_pos(edges, to, j0, i - 1);
        assert(edges.take(i).drop_last() =~= edges.take(i - 1));
    }
}

/// When no node satisfies the start test, the start filter is empty,
/// and likewise for the exit test.
proof fn lemma_filter_empty_of_none(s: Seq<crate::types::attractor_node::AttractorNode>)
    ensures
        (forall|i: int| 0 <= i < s.len() ==> !spec_is_start(&s[i])) ==> s.filter(
            |n: crate::types::attractor_node::AttractorNode| spec_is_start(&n),
        ).len() == 0,
        (forall|i: int| 0 <= i < s.len() ==> !spec_is_exit(&s[i])) ==> s.filter(
            |n: crate::types::attractor_node::AttractorNode| spec_is_exit(&n),
        ).len() == 0,
    decreases s.len(),
{
    reveal(Seq::filter);
    if s.len() > 0 {
        lemma_filter_empty_of_none(s.drop_last());
        assert(forall|i: int| 0 <= i < s.len() - 1 ==> s.drop_last()[i] == s[i]);
    }
}

/// With no missing command from the front, no node at all misses one.
proof fn lemma_no_missing_command(s: Seq<crate::types::attractor_node::AttractorNode>, i: int)
    requires
        0 <= i <= s.len(),
        crate::nodes::validate_graph::spec_first_missing_command(s, i) == -1,
    ensures
        forall|j: int|
            i <= j < s.len() ==> !crate::nodes::validate_graph::spec_missing_command(s[j]),
    decreases s.len() - i,
{
    if i < s.len() {
        lemma_no_missing_command(s, i + 1);
    }
}

/// Every target with several incoming edges has a merge point.
pub open spec fn spec_merges_cover(edges: Seq<AttractorEdge>, merges: Seq<MergeSpec>) -> bool {
    forall|i: int|
        0 <= i < edges.len() && spec_in_degree(edges, (#[trigger] edges[i]).to_node@) > 1
            ==> exists|k: int|
            0 <= k < merges.len() && (#[trigger] merges[k].target@) == edges[i].to_node@
}

/// The behavior kind the compiler gives a node, by its handler.
pub open spec fn spec_kind_ok(
    n: crate::types::attractor_node::AttractorNode,
    k: TopologyKind,
) -> bool {
    let h = crate::nodes::execute_handler::spec_handler_of(n);
    if h == "start"@ || h == "exit"@ {
        k is Identity
    } else if h == "exec"@ {
        match k {
            TopologyKind::Exec(c) => strutil::opt_view(n.command) == Some(c@),
            _ => false,
        }
    } else {
        match k {
            TopologyKind::Codergen(p) => (match strutil::opt_view(n.prompt) {
                Some(pv) => p@ == pv,
                None => p@.len() == 0,
            }),
            _ => false,
        }
    }
}

/// Compiles a validated graph into a topology. The entry is the start
/// node, or the given override when it names a node of the graph.
#[verifier::rlimit(100)]
#[verifier::spinoff_prover]
pub fn compile_topology(ast: &AttractorGraph, entry_node_id: Option<&str>) -> (r: Result<
    Topology,
    String,
>)
    requires
        ast.wf(),
    ensures
        ({
            let nodes = ast.nodes.seq();
            let starts = nodes.filter(|n: AttractorNode| spec_is_start(&n)).len();
            let exits = nodes.filter(|n: AttractorNode| spec_is_exit(&n)).len();
            let bad = crate::nodes::validate_graph::spec_first_missing_command(nodes, 0);
            let entry_ok = (match entry_node_id {
                Some(id) => ast.nodes.spec_contains(id@),
                None => true,
            });
            r is Ok <==> (starts == 1 && exits == 1 && bad == -1 && entry_ok && ast.edges@.len()
                < 0xffff_ffff)
        }),
        ({
            let nodes = ast.nodes.seq();
            let starts = nodes.filter(|n: AttractorNode| spec_is_start(&n)).len();
            let exits = nodes.filter(|n: AttractorNode| spec_is_exit(&n)).len();
            let bad = crate::nodes::validate_graph::spec_first_missing_command(nodes, 0);
            let entry_ok = (match entry_node_id {
                Some(id) => ast.nodes.spec_contains(id@),
                None => true,
            });
            r matches Err(e) ==> {
                ||| (starts != 1 && e@
                    == "Graph must have exactly one start node (shape=Mdiamond)"@)
                ||| (starts == 1 && exits != 1 && e@
                    == "Graph must have exactly one exit node (shape=Msquare)"@)
                ||| (starts == 1 && exits == 1 && bad >= 0 && e@ == "exec node '"@
                    + nodes[bad].id@ + "' requires a command attribute"@)
                ||| (starts == 1 && exits == 1 && bad == -1 && ast.edges@.len() >= 0xffff_ffff
                    && e@ == "graph has too many edges"@)
                ||| (starts == 1 && exits == 1 && bad == -1 && ast.edges@.len() < 0xffff_ffff
                    && !entry_ok && (match entry_node_id {
                    Some(id) => e@ == "entry node '"@ + id@ + "' is not a node in the graph"@,
                    None => false,
                }))
            }
        }),
        r matches Ok(t) ==> ast.nodes.spec_contains(t.entry_id@) && (match entry_node_id {
            Some(id) => t.entry_id@ == id@,
            None => spec_is_start(&ast.nodes.spec_get(t.entry_id@)),
        }),
        r matches Ok(t) ==> ast.nodes.spec_contains(t.exit_id@) && spec_is_exit(
            &ast.nodes.spec_get(t.exit_id@),
        ),
        r matches Ok(t) ==> t.nodes@.len() == ast.nodes.seq().len() && (forall|i: int|
            0 <= i < t.nodes@.len() ==> (#[trigger] t.nodes@[i]).id@ == ast.nodes.seq()[i].id@
                && spec_kind_ok(ast.nodes.seq()[i], t.nodes@[i].kind)),
        r matches Ok(t) ==> t.edge_channels@.len() == ast.edges@.len() && (forall|i: int|
            0 <= i < ast.edges@.len() ==> {
                let edges = ast.edges@;
                let c = #[trigger] t.edge_channels@[i];
                &&& c.from_node@ == edges[i].from_node@
                &&& c.from_port@ == spec_edge_port(edges[i])
                &&& (spec_in_degree(edges, edges[i].to_node@) <= 1 ==> c.to_node@
                    == edges[i].to_node@ && c.to_port@ == "in"@)
                &&& (spec_in_degree(edges, edges[i].to_node@) > 1 ==> c.to_node@ == "merge_"@
                    + edges[i].to_node@ + "_in"@ && c.to_port@ == "in_"@ + strutil::spec_udec(
                    spec_rank(edges, i),
                ))
            }),
        r matches Ok(t) ==> t.merges@.len() == t.merge_channels@.len() && (forall|k: int|
            0 <= k < t.merges@.len() ==> {
                let m = #[trigger] t.merges@[k];
                &&& m.inputs as int == spec_in_degree(ast.edges@, m.target@)
                &&& m.inputs > 1
                &&& m.id@ == "merge_"@ + m.target@ + "_in"@
                &&& t.merge_channels@[k].from_node@ == m.id@
                &&& t.merge_channels@[k].from_port@ == "out"@
                &&& t.merge_channels@[k].to_node@ == m.target@
                &&& t.merge_channels@[k].to_port@ == "in"@
            }),
        r matches Ok(t) ==> (forall|k1: int, k2: int|
            0 <= k1 < k2 < t.merges@.len() ==> (#[trigger] t.merges@[k1]).target@ != (
            #[trigger] t.merges@[k2]).target@),
        r matches Ok(t) ==> spec_merges_cover(ast.edges@, t.merges@),
{
    if let Err(e) = validate(ast) {
        return Err(e);
    }
    let start_id: String = match ast.find_start() {
        Some(n) => n.id.clone(),
        None => {
            proof {
                lemma_filter_empty_of_none(ast.nodes.seq());
            }
            return Err("missing start node".to_owned());
        },
    };
    let exit_id: String = match ast.find_exit() {
        Some(n) => n.id.clone(),
        None => {
            proof {
                lemma_filter_empty_of_none(ast.nodes.seq());
            }
            return Err("missing exit node".to_owned());
        },
    };
    if ast.edges.len() >= 0xffff_ffff {
        return Err("graph has too many edges".to_owned());
    }
    let entry_id: String = match entry_node_id {
        Some(id) => {
            if !ast.nodes.contains_key(id) {
                let msg = "entry node '".to_owned().concat(id).concat(
                    "' is not a node in the graph",
                );
                return Err(msg);
            }
            id.to_owned()
        },
        None => start_id.clone(),
    };
    let tnodes = match compile_nodes(ast) {
        Ok(tn) => tn,
        Err(e) => {
            return Err(e);
        },
    };
    let (edge_channels, merges, merge_channels) = compile_channels(ast);
    Ok(
        Topology {
            nodes: tnodes,
            merges,
            edge_channels,
            merge_channels,
            entry_id,
            exit_id,
        },
    )
}

/// Materializes one topology node per graph node; with every exec node
/// carrying its command, as the validator guarantees, this always
/// succeeds.
fn compile_nodes(ast: &AttractorGraph) -> (r: Result<Vec<TopologyNode>, String>)
    requires
        ast.wf(),
        crate::nodes::validate_graph::spec_first_missing_command(ast.nodes.seq(), 0) == -1,
    ensures
        r matches Ok(tn) && tn@.len() == ast.nodes.seq().len() && (forall|i: int|
            0 <= i < tn@.len() ==> (#[trigger] tn@[i]).id@ == ast.nodes.seq()[i].id@
                && spec_kind_ok(ast.nodes.seq()[i], tn@[i].kind)),
{
    let n = ast.nodes.len();
    let mut tnodes: Vec<TopologyNode> = Vec::new();
    let mut i: usize = 0;
    while i < n
        invariant
            ast.wf(),
            crate::nodes::validate_graph::spec_first_missing_command(ast.nodes.seq(), 0) == -1,
            n == ast.nodes.seq().len(),
            i <= n,
            tnodes@.len() == i,
            forall|j: int|
                0 <= j < i ==> (#[trigger] tnodes@[j]).id@ == ast.nodes.seq()[j].id@
                    && spec_kind_ok(ast.nodes.seq()[j], tnodes@[j].kind),
        decreases n - i,
    {
        let node = ast.nodes.node_at(i);
        let handler: &str = match &node.handler_type {
            Some(h) => h.as_str(),
            None => "codergen",
        };
        let kind: TopologyKind = if strutil::str_eq(handler, "start") || strutil::str_eq(
            handler,
            "exit",
        ) {
            TopologyKind::Identity
        } else if strutil::str_eq(handler, "exec") {
            match &node.command {
                Some(c) => TopologyKind::Exec(c.clone()),
                None => {
                    proof {
                        reveal_strlit("exec");
                        reveal_strlit("codergen");
                        assert("codergen"@.len() != "exec"@.len());
                        assert(node.handler_type is Some);
                        assert(strutil::opt_view(node.handler_type) == Some("exec"@));
                        assert(strutil::opt_view(node.command) is None);
                        assert(crate::nodes::validate_graph::spec_missing_command(
                            ast.nodes.seq()[i as int],
                        ));
                        lemma_no_missing_command(ast.nodes.seq(), 0);
                    }
                    let msg = "exec node '".to_owned().concat(node.id.as_str()).concat(
                        "' requires a command attribute",
                    );
                    return Err(msg);
                },
            }
        } else {
            let prompt: String = match &node.prompt {
                Some(p) => p.clone(),
                None => String::new(),
            };
            TopologyKind::Codergen(prompt)
        };
        tnodes.push(TopologyNode { id: node.id.clone(), kind });
        i = i + 1;
    }
    Ok(tnodes)
}

/// Resolves one channel per edge, routed by its condition, and one
/// merge point with its output channel per fan-in target.
#[verifier::rlimit(100)]
#[verifier::spinoff_prover]
fn compile_channels(ast: &AttractorGraph) -> (r: (Vec<Channel>, Vec<MergeSpec>, Vec<Channel>))
    requires
        ast.edges@.len() < 0xffff_ffff,
    ensures
        ({
            let edges = ast.edges@;
            let edge_channels = r.0;
            let merges = r.1;
            let merge_channels = r.2;
            &&& edge_channels@.len() == edges.len()
            &&& (forall|i: int|
                0 <= i < edges.len() ==> {
                    let c = #[trigger] edge_channels@[i];
                    &&& c.from_node@ == edges[i].from_node@
                    &&& c.from_port@ == spec_edge_port(edges[i])
                    &&& (spec_in_degree(edges, edges[i].to_node@) <= 1 ==> c.to_node@
                        == edges[i].to_node@ && c.to_port@ == "in"@)
                    &&& (spec_in_degree(edges, edges[i].to_node@) > 1 ==> c.to_node@ == "merge_"@
                        + edges[i].to_node@ + "_in"@ && c.to_port@ == "in_"@ + strutil::spec_udec(
                        spec_rank(edges, i),
                    ))
                })
            &&& merges@.len() == merge_channels@.len()
            &&& (forall|k: int|
                0 <= k < merges@.len() ==> {
                    let m = #[trigger] merges@[k];
                    &&& m.inputs as int == spec_in_degree(edges, m.target@)
                    &&& m.inputs > 1
                    &&& m.id@ == "merge_"@ + m.target@ + "_in"@
                    &&& merge_channels@[k].from_node@ == m.id@
                    &&& merge_channels@[k].from_port@ == "out"@
                    &&& merge_channels@[k].to_node@ == m.target@
                    &&& merge_channels@[k].to_port@ == "in"@
                })
            &&& (forall|k1: int, k2: int|
                0 <= k1 < k2 < merges@.len() ==> (#[trigger] merges@[k1]).target@ != (
                #[trigger] merges@[k2]).target@)
            &&& spec_merges_cover(edges, merges@)
        }),
{
    let ghost edges = ast.edges@;
    let ne = ast.edges.len();
    let mut edge_channels: Vec<Channel> = Vec::new();
    let mut merges: Vec<MergeSpec> = Vec::new();
    let mut merge_channels: Vec<Channel> = Vec::new();
    let mut i: usize = 0;
    while i < ne
        invariant
            ne == edges.len(),
            ne < 0xffff_ffff,
            edges == ast.edges@,
            i <= ne,
            edge_channels@.len() == i,
            forall|j: int|
                0 <= j < i ==> {
                    let c = #[trigger] edge_channels@[j];
                    &&& c.from_node@ == edges[j].from_node@
                    &&& c.from_port@ == spec_edge_port(edges[j])
                    &&& (spec_in_degree(edges, edges[j].to_node@) <= 1 ==> c.to_node@
                        == edges[j].to_node@ && c.to_port@ == "in"@)
                    &&& (spec_in_degree(edges, edges[j].to_node@) > 1 ==> c.to_node@ == "merge_"@
                        + edges[j].to_node@ + "_in"@ && c.to_port@ == "in_"@ + strutil::spec_udec(
                        spec_rank(edges, j),
                    ))
                },
            merges@.len() == merge_channels@.len(),
            forall|k: int|
                0 <= k < merges@.len() ==> {
                    let m = #[trigger] merges@[k];
                    &&& m.inputs as int == spec_in_degree(edges, m.target@)
                    &&& m.inputs > 1
                    &&& m.id@ == "merge_"@ + m.target@ + "_in"@
                    &&& merge_channels@[k].from_node@ == m.id@
                    &&& merge_channels@[k].from_port@ == "out"@
                    &&& merge_channels@[k].to_node@ == m.target@
                    &&& merge_channels@[k].to_port@ == "in"@
                },
            forall|k1: int, k2: int|
                0 <= k1 < k2 < merges@.len() ==> (#[trigger] merges@[k1]).target@ != (
                #[trigger] merges@[k2]).target@,
            forall|j: int|
                0 <= j < i && spec_in_degree(edges, (#[trigger] edges[j]).to_node@) > 1
                    ==> exists|k: int|
                    0 <= k < merges@.len() && (#[trigger] merges@[k].target@) == edges[j].to_node@,
            forall|k: int|
                0 <= k < merges@.len() ==> exists|j: int|
                    0 <= j < i && (#[trigger] edges[j]).to_node@ == (#[trigger] merges@[
                        k
                    ]).target@,
        decreases ne - i,
    {
        let ghost merges0 = merges@;
        let e = &ast.edges[i];
        let from_port: &str = match &e.condition {
            Some(c) => {
                if condition_is_outcome_error(Some(c.as_str())) {
                    "error"
                } else {
                    "out"
                }
            },
            None => "out",
        };
        let degree = count_edges_to(ast, e.to_node.as_str());
        let rank = count_edges_to_before(ast, e.to_node.as_str(), i);
        proof {
            lemma_in_degree_bounds(edges, edges[i as int].to_node@);
            lemma_in_degree_bounds(edges.take(i as int), edges[i as int].to_node@);
            assert(edges.take(i as int).len() == i as int);
            assert(degree as int == spec_in_degree(edges, edges[i as int].to_node@));
            assert(rank as int == spec_rank(edges, i as int));
        }
        if degree <= 1 {
            edge_channels.push(
                Channel {
                    from_node: e.from_node.clone(),
                    from_port: from_port.to_owned(),
                    to_node: e.to_node.clone(),
                    to_port: "in".to_owned(),
                },
            );
        } else {
            let merge_id = "merge_".to_owned().concat(e.to_node.as_str()).concat("_in");
            let port = "in_".to_owned().concat(strutil::u32_to_string(rank).as_str());
            edge_channels.push(
                Channel {
                    from_node: e.from_node.clone(),
                    from_port: from_port.to_owned(),
                    to_node: merge_id.clone(),
                    to_port: port,
                },
            );
            // Register the merge point at the first edge into this target.
            if rank == 0 {
                proof {
                    assert forall|k: int| 0 <= k < merges@.len() implies (#[trigger] merges@[
                        k
                    ]).target@ != edges[i as int].to_node@ by {
                        if merges@[k].target@ == edges[i as int].to_node@ {
                            let j0 = choose|j0: int|
                                0 <= j0 < i && (#[trigger] edges[j0]).to_node@ == merges@[k].target@;
                            lemma_in_degree_pos(edges, edges[i as int].to_node@, j0, i as int);
                        }
                    }
                }
                merges.push(
                    MergeSpec {
                        id: merge_id.clone(),
                        target: e.to_node.clone(),
                        inputs: degree_as_usize(ast, e.to_node.as_str()),
                    },
                );
                merge_channels.push(
                    Channel {
                        from_node: merge_id,
                        from_port: "out".to_owned(),
                        to_node: e.to_node.clone(),
                        to_port: "in".to_owned(),
                    },
                );
            } else {
                proof {
                    lemma_rank_pos_witness(edges, i as int);
                    let j0 = choose|j0: int|
                        0 <= j0 < i && (#[trigger] edges[j0]).to_node@ == edges[i as int].to_node@;
                    assert(spec_in_degree(edges, edges[j0].to_node@) > 1);
                }
            }
        }
        proof {
            assert(merges0.len() <= merges@.len());
            assert(forall|k: int| 0 <= k < merges0.len() ==> merges@[k] == merges0[k]);
            assert forall|j: int|
                0 <= j < i + 1 && spec_in_degree(edges, (#[trigger] edges[j]).to_node@)
                    > 1 implies exists|k: int|
                0 <= k < merges@.len() && (#[trigger] merges@[k].target@)
                    == edges[j].to_node@ by {
                if j < i {
                    let k0 = choose|k0: int|
                        0 <= k0 < merges0.len() && (#[trigger] merges0[k0].target@)
                            == edges[j].to_node@;
                    assert(merges@[k0].target@ == edges[j].to_node@);
                } else {
                    if rank == 0 {
                        assert(merges@[merges@.len() - 1].target@ == edges[i as int].to_node@);
                    } else {
                        let j0 = choose|j0: int|
                            0 <= j0 < i && (#[trigger] edges[j0]).to_node@
                                == edges[i as int].to_node@;
                        let k0 = choose|k0: int|
                            0 <= k0 < merges0.len() && (#[trigger] merges0[k0].target@)
                                == edges[j0].to_node@;
                        assert(merges@[k0].target@ == edges[j].to_node@);
                    }
                }
            }
        }
        i = i + 1;
    }
    (edge_channels, merges, merge_channels)
}

/// How many edges of the graph target the node.
fn count_edges_to(ast: &AttractorGraph, to: &str) -> (r: u32)
    ensures
        r as int == spec_in_degree(ast.edges@, to@) || r == 0xffff_ffff,
        spec_in_degree(ast.edges@, to@) < 0xffff_ffff ==> r as int == spec_in_degree(
            ast.edges@,
            to@,
        ),
{
    let n = ast.edges.len();
    let mut c: u32 = 0;
    let mut i: usize = 0;
    while i < n
        invariant
            n == ast.edges@.len(),
            i <= n,
            c as int == spec_in_degree(ast.edges@.take(i as int), to@) || c == 0xffff_ffff,
            spec_in_degree(ast.edges@.take(i as int), to@) < 0xffff_ffff ==> c as int
                == spec_in_degree(ast.edges@.take(i as int), to@),
            c as int <= spec_in_degree(ast.edges@.take(i as int), to@),
            spec_in_degree(ast.edges@.take(i as int), to@) <= i,
        decreases n - i,
    {
        proof {
            assert(ast.edges@.take(i + 1).drop_last() =~= ast.edges@.take(i as int));
            assert(ast.edges@.take(i + 1).last() == ast.edges@[i as int]);
        }
        if strutil::str_eq(ast.edges[i].to_node.as_str(), to) {
            if c < 0xffff_ffff {
                c = c + 1;
            }
        }
        i = i + 1;
    }
    proof {
        assert(ast.edges@.take(n as int) =~= ast.edges@);
    }
    c
}

/// How many edges before position `upto` target the node.
fn count_edges_to_before(ast: &AttractorGraph, to: &str, upto: usize) -> (r: u32)
    requires
        upto <= ast.edges@.len(),
    ensures
        spec_in_degree(ast.edges@.take(upto as int), to@) < 0xffff_ffff ==> r as int
            == spec_in_degree(ast.edges@.take(upto as int), to@),
{
    let mut c: u32 = 0;
    let mut i: usize = 0;
    while i < upto
        invariant
            upto <= ast.edges@.len(),
            i <= upto,
            c as int == spec_in_degree(ast.edges@.take(i as int), to@) || c == 0xffff_ffff,
            spec_in_degree(ast.edges@.take(i as int), to@) < 0xffff_ffff ==> c as int
                == spec_in_degree(ast.edges@.take(i as int), to@),
            c as int <= spec_in_degree(ast.edges@.take(i as int), to@),
            spec_in_degree(ast.edges@.take(i as int), to@) <= i,
        decreases upto - i,
    {
        proof {
            assert(ast.edges@.take(i + 1).drop_last() =~= ast.edges@.take(i as int));
            assert(ast.edges@.take(i + 1).last() == ast.edges@[i as int]);
        }
        if strutil::str_eq(ast.edges[i].to_node.as_str(), to) {
            if c < 0xffff_ffff {
                c = c + 1;
            }
        }
        i = i + 1;
    }
    c
}

/// The in-degree, clamped into a machine word.
fn degree_as_usize(ast: &AttractorGraph, to: &str) -> (r: usize)
    ensures
        spec_in_degree(ast.edges@, to@) < 0xffff_ffff ==> r as int == spec_in_degree(
            ast.edges@,
            to@,
        ),
{
    count_edges_to(ast, to) as usize
}

/// A positive rank means an earlier edge targets the same node.
proof fn lemma_rank_pos_witness(edges: Seq<AttractorEdge>, i: int)
    requires
        0 <= i < edges.len(),
        spec_rank(edges, i) >= 1,
    ensures
        exists|j: int| 0 <= j < i && (#[trigger] edges[j]).to_node@ == edges[i].to_node@,
    decreases i,
{
    let to = edges[i].to_node@;
    lemma_in_degree_witness(edges.take(i), to);
    let j = choose|j: int|
        0 <= j < edges.take(i).len() && (#[trigger] edges.take(i)[j]).to_node@ == to;
    assert(edges[j].to_node@ == to);
}

/// A positive in-degree means some edge targets the node.
proof fn lemma_in_degree_witness(edges: Seq<AttractorEdge>, to: Seq<char>)
    requires
        spec_in_degree(edges, to) >= 1,
    ensures
        exists|j: int| 0 <= j < edges.len() && (#[trigger] edges[j]).to_node@ == to,
    decreases edges.len(),
{
    if edges.len() > 0 {
        if edges.last().to_node@ == to {
            assert(edges[edges.len() - 1].to_node@ == to);
        } else {
            lemma_in_degree_witness(edges.drop_last(), to);
            let j = choose|j: int|
                0 <= j < edges.drop_last().len() && (#[trigger] edges.drop_last()[j]).to_node@
                    == to;
            assert(edges[j].to_node@ == to);
        }
    }
}

} // verus!
