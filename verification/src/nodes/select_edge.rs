//! Selects the next node from a node's outgoing edges, by a
//! precedence-ordered decision procedure: condition matches first, then
//! the outcome's preferred label, then its suggested next ids, then
//! unconditional edges, then any edge; ties go to the highest weight
//! and then the lexicographically smallest target.

use vstd::prelude::*;
use crate::nodes::ports::port_vec_1;

use crate::strutil;
use crate::strutil::{
    spec_has_prefix, spec_lower, spec_normalize_label_chars, spec_str_lt, spec_trim,
};
use crate::types::attractor_edge::AttractorEdge;
use crate::types::attractor_graph::{spec_outgoing, AttractorGraph};
use crate::types::context::RunContext;
use crate::types::node_outcome::NodeOutcome;
use crate::types::outcome_status::OutcomeStatus;

verus! {

/// Input for the edge selection step.
pub struct SelectEdgeInput {
    /// Current node id.
    pub node_id: String,
    /// Outcome of the current node.
    pub outcome: NodeOutcome,
    /// Current run context.
    pub context: RunContext,
    /// The workflow graph.
    pub graph: AttractorGraph,
}

/// Output of the edge selection step.
pub struct SelectEdgeOutput {
    /// Id of the next node, or `None` if traversal is done.
    pub next_node_id: Option<String>,
    /// Whether the pipeline finished successfully.
    pub done: bool,
}

/// Truth of a condition string against the context.
///
/// Recognized forms, after trimming: `outcome=<v>` holds when the
/// context's `outcome` value equals `<v>` ignoring ASCII case, or when
/// `<v>` names `success`/`fail` and the context holds the canonical
/// uppercase form; `outcome!=<v>` is the case-insensitive complement;
/// anything else is false.
pub open spec fn spec_eval_condition(cond: Seq<char>, ctx: Map<Seq<char>, Seq<char>>) -> bool {
    let t = spec_trim(cond);
    let ov = if ctx.contains_key("outcome"@) {
        ctx["outcome"@]
    } else {
        Seq::<char>::empty()
    };
    if spec_has_prefix(t, "outcome="@) {
        let stripped = t.skip("outcome="@.len() as int);
        ||| spec_lower(stripped) == spec_lower(ov)
        ||| (spec_lower(stripped) == spec_lower("success"@) && ov == "SUCCESS"@)
        ||| (spec_lower(stripped) == spec_lower("fail"@) && ov == "FAIL"@)
    } else if spec_has_prefix(t, "outcome!="@) {
        let stripped = t.skip("outcome!="@.len() as int);
        spec_lower(stripped) != spec_lower(ov)
    } else {
        false
    }
}

/// True when the edge carries a condition and that condition holds.
pub open spec fn spec_cond_matches(e: AttractorEdge, ctx: Map<Seq<char>, Seq<char>>) -> bool {
    match e.condition {
        Some(c) => spec_eval_condition(c@, ctx),
        None => false,
    }
}

/// Strictly better for selection: higher weight, or equal weight and a
/// lexicographically smaller target id.
pub open spec fn spec_edge_better(a: AttractorEdge, b: AttractorEdge) -> bool {
    a.weight > b.weight || (a.weight == b.weight && spec_str_lt(a.to_node@, b.to_node@))
}

/// The edge a left-to-right scan keeps: each element replaces the
/// running best only when strictly better, so the earliest of equally
/// good edges wins.
pub open spec fn spec_best(s: Seq<AttractorEdge>) -> AttractorEdge
    decreases s.len(),
{
    if s.len() <= 1 {
        s[0]
    } else {
        let prev = spec_best(s.drop_last());
        if spec_edge_better(s.last(), prev) {
            s.last()
        } else {
            prev
        }
    }
}

/// No edge is strictly better than itself.
pub proof fn lemma_edge_better_irrefl(a: AttractorEdge)
    ensures
        !spec_edge_better(a, a),
{
    strutil::lemma_str_lt_irrefl(a.to_node@);
}

/// Strictly better is transitive.
pub proof fn lemma_edge_better_trans(a: AttractorEdge, b: AttractorEdge, c: AttractorEdge)
    requires
        spec_edge_better(a, b),
        spec_edge_better(b, c),
    ensures
        spec_edge_better(a, c),
{
    if a.weight == b.weight && b.weight == c.weight {
        strutil::lemma_str_lt_trans(a.to_node@, b.to_node@, c.to_node@);
    }
}

/// No edge of the list is strictly better than the scan's pick.
pub proof fn lemma_best_is_max(s: Seq<AttractorEdge>)
    requires
        s.len() > 0,
    ensures
        exists|i: int| 0 <= i < s.len() && (#[trigger] s[i]) == spec_best(s),
        forall|j: int| 0 <= j < s.len() ==> !spec_edge_better(s[j], spec_best(s)),
    decreases s.len(),
{
    if s.len() == 1 {
        assert(s[0] == spec_best(s));
        lemma_edge_better_irrefl(s[0]);
    } else {
        lemma_best_is_max(s.drop_last());
        let prev = spec_best(s.drop_last());
        let b = spec_best(s);
        assert forall|j: int| 0 <= j < s.len() implies !spec_edge_better(s[j], b) by {
            if j < s.len() - 1 {
                assert(s.drop_last()[j] == s[j]);
                assert(!spec_edge_better(s.drop_last()[j], prev));
                assert(!spec_edge_better(s[j], prev));
                if spec_edge_better(s.last(), prev) {
                    if spec_edge_better(s[j], s.last()) {
                        lemma_edge_better_trans(s[j], s.last(), prev);
                        assert(false);
                    }
                    assert(!spec_edge_better(s[j], s.last()));
                    assert(b == s.last());
                }
            } else {
                if !spec_edge_better(s.last(), prev) {
                } else {
                    lemma_edge_better_irrefl(s.last());
                }
            }
        }
        if spec_edge_better(s.last(), prev) {
            assert(s[s.len() - 1] == b);
        } else {
            let i = choose|i: int| 0 <= i < s.drop_last().len() && s.drop_last()[i] == prev;
            assert(s[i] == b);
        }
    }
}

/// Label matching for the preferred-label rule: the edge's label,
/// normalized, equals the normalized preference.
pub open spec fn spec_label_matches(e: AttractorEdge, prefnorm: Seq<char>) -> bool {
    match e.label {
        Some(l) => spec_normalize_label_chars(l@) == prefnorm,
        None => false,
    }
}

/// The first index at or after `i` whose edge label matches, or -1.
pub open spec fn spec_find_label(s: Seq<AttractorEdge>, prefnorm: Seq<char>, i: int) -> int
    decreases s.len() - i,
{
    if i < 0 || i >= s.len() {
        -1
    } else if spec_label_matches(s[i], prefnorm) {
        i
    } else {
        spec_find_label(s, prefnorm, i + 1)
    }
}

/// True when some edge of the list targets the given id.
pub open spec fn spec_has_to(s: Seq<AttractorEdge>, id: Seq<char>) -> bool {
    exists|j: int| 0 <= j < s.len() && s[j].to_node@ == id
}

/// The first index at or after `i` of a suggested id that some edge
/// targets, or -1.
pub open spec fn spec_find_suggested(sids: Seq<Seq<char>>, s: Seq<AttractorEdge>, i: int) -> int
    decreases sids.len() - i,
{
    if i < 0 || i >= sids.len() {
        -1
    } else if spec_has_to(s, sids[i]) {
        i
    } else {
        spec_find_suggested(sids, s, i + 1)
    }
}

/// The whole decision procedure, in precedence order, over the views
/// of the deciding outcome: its status, preferred label and suggested
/// next ids.
pub open spec fn spec_select_next(
    node_id: Seq<char>,
    status: OutcomeStatus,
    pref: Option<Seq<char>>,
    sugg: Seq<Seq<char>>,
    ctx: Map<Seq<char>, Seq<char>>,
    edges: Seq<AttractorEdge>,
) -> (Option<Seq<char>>, bool) {
    let out = spec_outgoing(edges, node_id);
    if out.len() == 0 {
        (None, status == OutcomeStatus::Success)
    } else {
        let condm = out.filter(|e: AttractorEdge| spec_cond_matches(e, ctx));
        if condm.len() > 0 {
            (Some(spec_best(condm).to_node@), false)
        } else {
            let pl = match pref {
                Some(p) => spec_find_label(out, spec_normalize_label_chars(p), 0),
                None => -1,
            };
            if pl >= 0 {
                (Some(out[pl].to_node@), false)
            } else {
                let si = spec_find_suggested(sugg, out, 0);
                if si >= 0 {
                    (Some(sugg[si]), false)
                } else {
                    let uncond = out.filter(|e: AttractorEdge| e.condition is None);
                    if uncond.len() > 0 {
                        (Some(spec_best(uncond).to_node@), false)
                    } else {
                        (Some(spec_best(out).to_node@), false)
                    }
                }
            }
        }
    }
}

/// Evaluates a condition string (e.g. `outcome=Success`,
/// `outcome!=Fail`) against the context.
pub fn evaluate_condition(cond: &str, _outcome: &NodeOutcome, context: &RunContext) -> (r: bool)
    requires
        context.wf(),
    ensures
        r == spec_eval_condition(cond@, context.as_map()),
{
    let t = strutil::trim_str(cond);
    let ov: &str = match context.get("outcome") {
        Some(v) => v.as_str(),
        None => "",
    };
    proof {
        reveal_strlit("");
        assert(""@ =~= Seq::<char>::empty());
    }
    if let Some(stripped) = strutil::strip_prefix_str(t, "outcome=") {
        if strutil::eq_ignore_case(stripped, ov) {
            return true;
        }
        if strutil::eq_ignore_case(stripped, "success") && strutil::str_eq(ov, "SUCCESS") {
            return true;
        }
        if strutil::eq_ignore_case(stripped, "fail") && strutil::str_eq(ov, "FAIL") {
            return true;
        }
        false
    } else if let Some(stripped) = strutil::strip_prefix_str(t, "outcome!=") {
        !strutil::eq_ignore_case(stripped, ov)
    } else {
        false
    }
}

/// Normalizes an edge label for comparison: lowercase, trim, strip a
/// leading run of `[` and ASCII letters, then a leading run of `)`,
/// space and `-`.
pub fn normalize_label(l: &str) -> (r: String)
    ensures
        r@ == spec_normalize_label_chars(l@),
{
    strutil::normalize_label_str(l)
}

/// Picks the best edge by weight (descending), then lexically by
/// target id; the earliest of equals wins.
pub fn best_by_weight_then_lexical<'a>(edges: Vec<&'a AttractorEdge>) -> (r: &'a AttractorEdge)
    requires
        edges@.len() > 0,
    ensures
        *r == spec_best(edges@.map_values(|e: &AttractorEdge| *e)),
{
    let ghost s = edges@.map_values(|e: &AttractorEdge| *e);
    let n = edges.len();
    let mut best: &AttractorEdge = edges[0];
    let mut i: usize = 1;
    proof {
        assert(s.take(1) =~= seq![s[0]]);
    }
    while i < n
        invariant
            n == edges@.len(),
            s == edges@.map_values(|e: &AttractorEdge| *e),
            1 <= i <= n,
            *best == spec_best(s.take(i as int)),
        decreases n - i,
    {
        let e = edges[i];
        proof {
            assert(s.take(i + 1).drop_last() =~= s.take(i as int));
            assert(s.take(i + 1).last() == s[i as int]);
        }
        let better = e.weight > best.weight || (e.weight == best.weight && strutil::str_lt(
            e.to_node.as_str(),
            best.to_node.as_str(),
        ));
        if better {
            best = e;
        }
        i = i + 1;
    }
    proof {
        assert(s.take(n as int) =~= s);
    }
    best
}

/// Selects the next node per the decision procedure, over borrowed
/// parts.
#[verifier::rlimit(60)]
pub fn select_next_in(
    graph: &AttractorGraph,
    node_id: &str,
    outcome: &NodeOutcome,
    context: &RunContext,
) -> (r: SelectEdgeOutput)
    requires
        context.wf(),
    ensures
        ({
            let (next, done) = spec_select_next(
                node_id@,
                outcome.status,
                strutil::opt_view(outcome.preferred_label),
                outcome.suggested_next_ids@.map_values(|s: String| s@),
                context.as_map(),
                graph.edges@,
            );
            strutil::opt_view(r.next_node_id) == next && r.done == done
        }),
{
    let edges = graph.outgoing_edges(node_id);
    let ghost out = spec_outgoing(graph.edges@, node_id@);
    let ghost ctx = context.as_map();
    if edges.len() == 0 {
        return SelectEdgeOutput {
            next_node_id: None,
            done: outcome.status == OutcomeStatus::Success,
        };
    }
    // Rule: condition matches.
    let n = edges.len();
    let mut condm: Vec<&AttractorEdge> = Vec::new();
    let mut i: usize = 0;
    proof {
        reveal(Seq::filter);
        assert(out.take(0) =~= Seq::<AttractorEdge>::empty());
    }
    while i < n
        invariant
            context.wf(),
            n == edges@.len(),
            out == edges@.map_values(|e: &AttractorEdge| *e),
            ctx == context.as_map(),
            i <= n,
            condm@.map_values(|e: &AttractorEdge| *e) == out.take(i as int).filter(
                |e: AttractorEdge| spec_cond_matches(e, ctx),
            ),
        decreases n - i,
    {
        proof {
            reveal(Seq::filter);
            assert(out.take(i + 1).drop_last() =~= out.take(i as int));
            assert(out.take(i + 1).last() == out[i as int]);
        }
        let e = edges[i];
        let matched = match &e.condition {
            Some(c) => evaluate_condition(c.as_str(), outcome, context),
            None => false,
        };
        if matched {
            condm.push(e);
            proof {
                assert(condm@.map_values(|e: &AttractorEdge| *e) =~= out.take(i as int).filter(
                    |e: AttractorEdge| spec_cond_matches(e, ctx),
                ).push(out[i as int]));
            }
        }
        i = i + 1;
    }
    proof {
        assert(out.take(n as int) =~= out);
    }
    if condm.len() > 0 {
        let best = best_by_weight_then_lexical(condm);
        return SelectEdgeOutput { next_node_id: Some(best.to_node.clone()), done: false };
    }
    // Rule: preferred label.
    if let Some(pref) = &outcome.preferred_label {
        let normalized_pref = normalize_label(pref.as_str());
        let ghost pn = spec_normalize_label_chars(pref@);
        let mut i: usize = 0;
        while i < n
            invariant
                n == edges@.len(),
                out == edges@.map_values(|e: &AttractorEdge| *e),
                out == spec_outgoing(graph.edges@, node_id@),
                out.len() > 0,
                ctx == context.as_map(),
                out.filter(|e: AttractorEdge| spec_cond_matches(e, ctx)).len() == 0,
                outcome.preferred_label == Some(*pref),
                pn == normalized_pref@,
                pn == spec_normalize_label_chars(pref@),
                i <= n,
                spec_find_label(out, pn, 0) == spec_find_label(out, pn, i as int),
            decreases n - i,
        {
            let e = edges[i];
            let matched = match &e.label {
                Some(l) => {
                    let nl = normalize_label(l.as_str());
                    nl == normalized_pref
                },
                None => false,
            };
            if matched {
                proof {
                    assert(spec_label_matches(out[i as int], pn));
                    assert(spec_find_label(out, pn, i as int) == i as int);
                }
                return SelectEdgeOutput { next_node_id: Some(e.to_node.clone()), done: false };
            }
            proof {
                assert(!spec_label_matches(out[i as int], pn));
            }
            i = i + 1;
        }
        proof {
            assert(spec_find_label(out, pn, n as int) == -1);
        }
    }
    // Rule: suggested next ids.
    let ghost sids = outcome.suggested_next_ids@.map_values(|s: String| s@);
    let m = outcome.suggested_next_ids.len();
    let mut k: usize = 0;
    while k < m
        invariant
            sids == outcome.suggested_next_ids@.map_values(|s: String| s@),
            m == sids.len(),
            n == edges@.len(),
            out == edges@.map_values(|e: &AttractorEdge| *e),
            out == spec_outgoing(graph.edges@, node_id@),
            out.len() > 0,
            ctx == context.as_map(),
            out.filter(|e: AttractorEdge| spec_cond_matches(e, ctx)).len() == 0,
            (match strutil::opt_view(outcome.preferred_label) {
                Some(p) => spec_find_label(out, spec_normalize_label_chars(p), 0) == -1,
                None => true,
            }),
            k <= m,
            spec_find_suggested(sids, out, 0) == spec_find_suggested(sids, out, k as int),
        decreases m - k,
    {
        let sid = &outcome.suggested_next_ids[k];
        let mut i: usize = 0;
        let mut found: bool = false;
        while i < n
            invariant
                n == edges@.len(),
                out == edges@.map_values(|e: &AttractorEdge| *e),
                i <= n,
                found ==> spec_has_to(out, sid@),
                !found ==> forall|j: int| 0 <= j < i ==> out[j].to_node@ != sid@,
            decreases n - i,
        {
            if strutil::str_eq(edges[i].to_node.as_str(), sid.as_str()) {
                proof {
                    assert(out[i as int].to_node@ == sid@);
                }
                found = true;
            }
            i = i + 1;
        }
        if found {
            proof {
                assert(spec_find_suggested(sids, out, k as int) == k as int);
            }
            return SelectEdgeOutput { next_node_id: Some(sid.clone()), done: false };
        }
        proof {
            assert(sids[k as int] == sid@);
            assert(!spec_has_to(out, sids[k as int]));
        }
        k = k + 1;
    }
    proof {
        assert(spec_find_suggested(sids, out, m as int) == -1);
    }
    // Rule: unconditional edges.
    let mut uncond: Vec<&AttractorEdge> = Vec::new();
    let mut i: usize = 0;
    proof {
        reveal(Seq::filter);
        assert(out.take(0) =~= Seq::<AttractorEdge>::empty());
    }
    while i < n
        invariant
            n == edges@.len(),
            out == edges@.map_values(|e: &AttractorEdge| *e),
            i <= n,
            uncond@.map_values(|e: &AttractorEdge| *e) == out.take(i as int).filter(
                |e: AttractorEdge| e.condition is None,
            ),
        decreases n - i,
    {
        proof {
            reveal(Seq::filter);
            assert(out.take(i + 1).drop_last() =~= out.take(i as int));
            assert(out.take(i + 1).last() == out[i as int]);
        }
        let e = edges[i];
        let isnone = match &e.condition {
            Some(_) => false,
            None => true,
        };
        if isnone {
            uncond.push(e);
            proof {
                assert(uncond@.map_values(|e: &AttractorEdge| *e) =~= out.take(i as int).filter(
                    |e: AttractorEdge| e.condition is None,
                ).push(out[i as int]));
            }
        }
        i = i + 1;
    }
    proof {
        assert(out.take(n as int) =~= out);
    }
    if uncond.len() > 0 {
        let best = best_by_weight_then_lexical(uncond);
        return SelectEdgeOutput { next_node_id: Some(best.to_node.clone()), done: false };
    }
    // Rule: fallback over all outgoing edges.
    let best = best_by_weight_then_lexical(edges);
    SelectEdgeOutput { next_node_id: Some(best.to_node.clone()), done: false }
}

/// Selects the next node per the decision procedure.
pub fn select_edge(input: &SelectEdgeInput) -> (r: SelectEdgeOutput)
    requires
        input.context.wf(),
    ensures
        ({
            let (next, done) = spec_select_next(
                input.node_id@,
                input.outcome.status,
                strutil::opt_view(input.outcome.preferred_label),
                input.outcome.suggested_next_ids@.map_values(|s: String| s@),
                input.context.as_map(),
                input.graph.edges@,
            );
            strutil::opt_view(r.next_node_id) == next && r.done == done
        }),
{
    select_next_in(&input.graph, input.node_id.as_str(), &input.outcome, &input.context)
}

/// The decision procedure is deterministic: two outcomes with equal
/// views, over one context and one edge list, select the same next
/// node and the same done flag.
pub proof fn lemma_select_next_deterministic(
    node_id: Seq<char>,
    o1: NodeOutcome,
    o2: NodeOutcome,
    ctx: Map<Seq<char>, Seq<char>>,
    edges: Seq<AttractorEdge>,
)
    requires
        o1.status == o2.status,
        strutil::opt_view(o1.preferred_label) == strutil::opt_view(o2.preferred_label),
        o1.suggested_next_ids@.map_values(|s: String| s@) == o2.suggested_next_ids@.map_values(
            |s: String| s@,
        ),
    ensures
        spec_select_next(
            node_id,
            o1.status,
            strutil::opt_view(o1.preferred_label),
            o1.suggested_next_ids@.map_values(|s: String| s@),
            ctx,
            edges,
        ) == spec_select_next(
            node_id,
            o2.status,
            strutil::opt_view(o2.preferred_label),
            o2.suggested_next_ids@.map_values(|s: String| s@),
            ctx,
            edges,
        ),
{
}


/// Node shell that selects the next edge.
#[derive(Debug)]
pub struct SelectEdgeNode {
    /// Node display name.
    pub name: String,
    /// Input port names.
    pub input_ports: Vec<String>,
    /// Output port names.
    pub output_ports: Vec<String>,
}

impl SelectEdgeNode {
    /// Creates the node with the given display name and its fixed
    /// ports.
    pub fn new(name: &str) -> (r: SelectEdgeNode)
        ensures
            r.name@ == name@,
            r.input_ports@.len() == 1,
            r.input_ports@[0]@ == "in"@,
            r.output_ports@.len() == 1,
            r.output_ports@[0]@ == "out"@,
    {
        SelectEdgeNode {
            name: name.to_owned(),
            input_ports: port_vec_1("in"),
            output_ports: port_vec_1("out"),
        }
    }

    /// The node's display name.
    pub fn name(&self) -> (r: &str)
        ensures
            r@ == self.name@,
    {
        self.name.as_str()
    }

    /// Renames the node; the ports stay.
    pub fn set_name(&mut self, name: &str)
        ensures
            final(self).name@ == name@,
            final(self).input_ports == old(self).input_ports,
            final(self).output_ports == old(self).output_ports,
    {
        self.name = name.to_owned();
    }

    /// The input port names.
    pub fn input_port_names(&self) -> (r: &Vec<String>)
        ensures
            r == &self.input_ports,
    {
        &self.input_ports
    }

    /// The output port names.
    pub fn output_port_names(&self) -> (r: &Vec<String>)
        ensures
            r == &self.output_ports,
    {
        &self.output_ports
    }

    /// True for this node's input ports.
    pub fn has_input_port(&self, name: &str) -> (r: bool)
        ensures
            r == (name@ == "in"@),
    {
        crate::strutil::str_eq(name, "in")
    }

    /// True for this node's output ports.
    pub fn has_output_port(&self, name: &str) -> (r: bool)
        ensures
            r == (name@ == "out"@),
    {
        crate::strutil::str_eq(name, "out")
    }
}

} // verus!
