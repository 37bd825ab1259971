//! The parsed workflow graph: a table of nodes keyed by id and an
//! ordered list of edges.

use vstd::prelude::*;

use crate::strutil;
use crate::types::attractor_edge::AttractorEdge;
use crate::types::attractor_node::{spec_is_exit, spec_is_start, AttractorNode};

verus! {

/// A table of nodes keyed by their `id`, in insertion order.
#[derive(Debug, Clone)]
pub struct NodeTable {
    nodes: Vec<AttractorNode>,
}

impl NodeTable {
    /// The stored nodes, in insertion order.
    pub closed spec fn seq(&self) -> Seq<AttractorNode> {
        self.nodes@
    }

    /// Well-formed: no id occurs twice.
    pub open spec fn wf(&self) -> bool {
        forall|i: int, j: int|
            0 <= i < j < self.seq().len() ==> self.seq()[i].id@ != self.seq()[j].id@
    }

    /// True when some stored node has the given id.
    pub open spec fn spec_contains(&self, id: Seq<char>) -> bool {
        exists|i: int| 0 <= i < self.seq().len() && self.seq()[i].id@ == id
    }

    /// The index of the node with the given id.
    pub open spec fn index_of(&self, id: Seq<char>) -> int {
        choose|i: int| 0 <= i < self.seq().len() && self.seq()[i].id@ == id
    }

    /// The stored node with the given id.
    pub open spec fn spec_get(&self, id: Seq<char>) -> AttractorNode {
        self.seq()[self.index_of(id)]
    }

    /// In a well-formed table, position `i` holds the node that
    /// `spec_get` returns for its id.
    pub proof fn lemma_get_at(&self, i: int)
        requires
            self.wf(),
            0 <= i < self.seq().len(),
        ensures
            self.spec_contains(self.seq()[i].id@),
            self.index_of(self.seq()[i].id@) == i,
            self.spec_get(self.seq()[i].id@) == self.seq()[i],
    {
        let id = self.seq()[i].id@;
        assert(self.spec_contains(id));
        let j = self.index_of(id);
        assert(0 <= j < self.seq().len() && self.seq()[j].id@ == id);
        if i != j {
            assert(false);
        }
    }

    /// The empty table.
    pub fn new() -> (r: NodeTable)
        ensures
            r.wf(),
            r.seq().len() == 0,
    {
        NodeTable { nodes: Vec::new() }
    }

    /// How many nodes the table holds.
    pub fn len(&self) -> (r: usize)
        ensures
            r == self.seq().len(),
    {
        self.nodes.len()
    }

    /// The node at position `i`.
    pub fn node_at(&self, i: usize) -> (r: &AttractorNode)
        requires
            i < self.seq().len(),
        ensures
            *r == self.seq()[i as int],
    {
        &self.nodes[i]
    }

    /// Looks a node up by id.
    pub fn get(&self, id: &str) -> (r: Option<&AttractorNode>)
        requires
            self.wf(),
        ensures
            match r {
                Some(n) => self.spec_contains(id@) && *n == self.spec_get(id@) && n.id@ == id@,
                None => !self.spec_contains(id@),
            },
    {
        let n = self.nodes.len();
        let mut i: usize = 0;
        while i < n
            invariant
                self.wf(),
                n == self.seq().len(),
                i <= n,
                forall|j: int| 0 <= j < i ==> self.seq()[j].id@ != id@,
            decreases n - i,
        {
            if strutil::str_eq(self.nodes[i].id.as_str(), id) {
                proof {
                    self.lemma_get_at(i as int);
                }
                return Some(&self.nodes[i]);
            }
            i = i + 1;
        }
        None
    }

    /// True when a node with the id is stored.
    pub fn contains_key(&self, id: &str) -> (r: bool)
        requires
            self.wf(),
        ensures
            r == self.spec_contains(id@),
    {
        match self.get(id) {
            Some(_) => true,
            None => false,
        }
    }

    /// Inserts a node under its id; a present id keeps its position and
    /// takes the new node.
    pub fn insert(&mut self, node: AttractorNode)
        requires
            old(self).wf(),
        ensures
            final(self).wf(),
            final(self).spec_contains(node.id@),
            final(self).spec_get(node.id@) == node,
            final(self).seq().len() <= old(self).seq().len() + 1,
            forall|id: Seq<char>|
                id != node.id@ ==> final(self).spec_contains(id) == old(self).spec_contains(id),
            forall|id: Seq<char>|
                id != node.id@ && old(self).spec_contains(id) ==> final(self).spec_get(id)
                    == old(self).spec_get(id),
            (if old(self).spec_contains(node.id@) {
                exists|j: int|
                    0 <= j < old(self).seq().len() && (#[trigger] old(self).seq()[j]).id@
                        == node.id@ && (forall|k: int|
                        0 <= k < j ==> old(self).seq()[k].id@ != node.id@) && final(self).seq()
                        == old(self).seq().update(j, node)
            } else {
                final(self).seq() == old(self).seq().push(node)
            }),
    {
        let n = self.nodes.len();
        let mut i: usize = 0;
        while i < n
            invariant
                *self == *old(self),
                self.wf(),
                n == self.seq().len(),
                i <= n,
                forall|j: int| 0 <= j < i ==> self.seq()[j].id@ != node.id@,
            decreases n - i,
        {
            if strutil::str_eq(self.nodes[i].id.as_str(), node.id.as_str()) {
                let ghost oldtab = *self;
                let ghost nid = node.id@;
                self.nodes.set(i, node);
                proof {
                    self.lemma_get_at(i as int);
                    assert forall|id: Seq<char>| id != nid implies self.spec_contains(id)
                        == oldtab.spec_contains(id) by {
                        if oldtab.spec_contains(id) {
                            let j = oldtab.index_of(id);
                            assert(self.seq()[j].id@ == id);
                        }
                        if self.spec_contains(id) {
                            let j = self.index_of(id);
                            assert(oldtab.seq()[j].id@ == id);
                        }
                    }
                    assert forall|id: Seq<char>|
                        id != nid && oldtab.spec_contains(id) implies self.spec_get(id)
                        == oldtab.spec_get(id) by {
                        let j = oldtab.index_of(id);
                        oldtab.lemma_get_at(j);
                        self.lemma_get_at(j);
                    }
                }
                return;
            }
            i = i + 1;
        }
        let ghost oldtab = *self;
        let ghost nid = node.id@;
        self.nodes.push(node);
        proof {
            assert(self.seq().len() == oldtab.seq().len() + 1);
            self.lemma_get_at(self.seq().len() - 1);
            assert forall|id: Seq<char>| id != nid implies self.spec_contains(id)
                == oldtab.spec_contains(id) by {
                if oldtab.spec_contains(id) {
                    let j = oldtab.index_of(id);
                    assert(self.seq()[j].id@ == id);
                }
                if self.spec_contains(id) {
                    let j = self.index_of(id);
                    assert(oldtab.seq()[j].id@ == id);
                }
            }
            assert forall|id: Seq<char>|
                id != nid && oldtab.spec_contains(id) implies self.spec_get(id) == oldtab.spec_get(
                id,
            ) by {
                let j = oldtab.index_of(id);
                oldtab.lemma_get_at(j);
                self.lemma_get_at(j);
            }
        }
    }

    /// The first stored node satisfying the start test, if any.
    pub fn first_start(&self) -> (r: Option<&AttractorNode>)
        ensures
            match r {
                Some(n) => exists|i: int|
                    0 <= i < self.seq().len() && self.seq()[i] == *n && spec_is_start(
                        &self.seq()[i],
                    ) && forall|j: int| 0 <= j < i ==> !spec_is_start(&self.seq()[j]),
                None => forall|i: int|
                    0 <= i < self.seq().len() ==> !spec_is_start(&self.seq()[i]),
            },
    {
        let n = self.nodes.len();
        let mut i: usize = 0;
        while i < n
            invariant
                n == self.seq().len(),
                i <= n,
                forall|j: int| 0 <= j < i ==> !spec_is_start(&self.seq()[j]),
            decreases n - i,
        {
            if self.nodes[i].is_start() {
                return Some(&self.nodes[i]);
            }
            i = i + 1;
        }
        None
    }

    /// The first stored node satisfying the exit test, if any.
    pub fn first_exit(&self) -> (r: Option<&AttractorNode>)
        ensures
            match r {
                Some(n) => exists|i: int|
                    0 <= i < self.seq().len() && self.seq()[i] == *n && spec_is_exit(
                        &self.seq()[i],
                    ) && forall|j: int| 0 <= j < i ==> !spec_is_exit(&self.seq()[j]),
                None => forall|i: int|
                    0 <= i < self.seq().len() ==> !spec_is_exit(&self.seq()[i]),
            },
    {
        let n = self.nodes.len();
        let mut i: usize = 0;
        while i < n
            invariant
                n == self.seq().len(),
                i <= n,
                forall|j: int| 0 <= j < i ==> !spec_is_exit(&self.seq()[j]),
            decreases n - i,
        {
            if self.nodes[i].is_exit() {
                return Some(&self.nodes[i]);
            }
            i = i + 1;
        }
        None
    }

    /// An independent copy with the same nodes.
    pub fn duplicate(&self) -> (r: NodeTable)
        ensures
            r.seq().len() == self.seq().len(),
            forall|i: int| 0 <= i < self.seq().len() ==> r.seq()[i].same_as(&self.seq()[i]),
            self.wf() ==> r.wf(),
    {
        let n = self.nodes.len();
        let mut nodes: Vec<AttractorNode> = Vec::new();
        let mut i: usize = 0;
        while i < n
            invariant
                n == self.seq().len(),
                i <= n,
                nodes@.len() == i,
                forall|j: int| 0 <= j < i ==> nodes@[j].same_as(&self.seq()[j]),
            decreases n - i,
        {
            nodes.push(self.nodes[i].duplicate());
            i = i + 1;
        }
        NodeTable { nodes }
    }
}

/// The outgoing edges of a node: the edges whose source is that node,
/// in graph order.
pub open spec fn spec_outgoing(edges: Seq<AttractorEdge>, id: Seq<char>) -> Seq<AttractorEdge> {
    edges.filter(|e: AttractorEdge| e.from_node@ == id)
}

/// The parsed workflow graph.
#[derive(Debug, Clone)]
pub struct AttractorGraph {
    pub goal: String,
    pub nodes: NodeTable,
    pub edges: Vec<AttractorEdge>,
    pub default_max_retry: u32,
}

impl AttractorGraph {
    /// Well-formed: the node table carries no duplicate ids.
    pub open spec fn wf(&self) -> bool {
        self.nodes.wf()
    }

    /// The first start node of the graph, if any.
    pub fn find_start(&self) -> (r: Option<&AttractorNode>)
        ensures
            match r {
                Some(n) => exists|i: int|
                    0 <= i < self.nodes.seq().len() && self.nodes.seq()[i] == *n && spec_is_start(
                        &self.nodes.seq()[i],
                    ) && forall|j: int| 0 <= j < i ==> !spec_is_start(&self.nodes.seq()[j]),
                None => forall|i: int|
                    0 <= i < self.nodes.seq().len() ==> !spec_is_start(&self.nodes.seq()[i]),
            },
    {
        self.nodes.first_start()
    }

    /// The first exit node of the graph, if any.
    pub fn find_exit(&self) -> (r: Option<&AttractorNode>)
        ensures
            match r {
                Some(n) => exists|i: int|
                    0 <= i < self.nodes.seq().len() && self.nodes.seq()[i] == *n && spec_is_exit(
                        &self.nodes.seq()[i],
                    ) && forall|j: int| 0 <= j < i ==> !spec_is_exit(&self.nodes.seq()[j]),
                None => forall|i: int|
                    0 <= i < self.nodes.seq().len() ==> !spec_is_exit(&self.nodes.seq()[i]),
            },
    {
        self.nodes.first_exit()
    }

    /// The outgoing edges of `node_id`, in graph order.
    pub fn outgoing_edges(&self, node_id: &str) -> (r: Vec<&AttractorEdge>)
        ensures
            r@.map_values(|e: &AttractorEdge| *e) == spec_outgoing(self.edges@, node_id@),
    {
        let n = self.edges.len();
        let mut r: Vec<&AttractorEdge> = Vec::new();
        let mut i: usize = 0;
        proof {
            reveal(Seq::filter);
        }
        while i < n
            invariant
                n == self.edges@.len(),
                i <= n,
                r@.map_values(|e: &AttractorEdge| *e) == spec_outgoing(
                    self.edges@.take(i as int),
                    node_id@,
                ),
            decreases n - i,
        {
            let ghost prefix = self.edges@.take(i as int);
            let ghost prefix1 = self.edges@.take(i + 1);
            proof {
                reveal(Seq::filter);
                assert(prefix1.drop_last() =~= prefix);
                assert(prefix1.last() == self.edges@[i as int]);
            }
            if strutil::str_eq(self.edges[i].from_node.as_str(), node_id) {
                r.push(&self.edges[i]);
                proof {
                    assert(r@.map_values(|e: &AttractorEdge| *e) =~= spec_outgoing(
                        prefix,
                        node_id@,
                    ).push(self.edges@[i as int]));
                    assert(spec_outgoing(prefix1, node_id@) =~= spec_outgoing(
                        prefix,
                        node_id@,
                    ).push(self.edges@[i as int]));
                }
            } else {
                proof {
                    assert(spec_outgoing(prefix1, node_id@) =~= spec_outgoing(prefix, node_id@));
                }
            }
            i = i + 1;
        }
        proof {
            assert(self.edges@.take(n as int) =~= self.edges@);
        }
        r
    }

    /// An independent copy with the same nodes and edges.
    pub fn duplicate(&self) -> (r: AttractorGraph)
        ensures
            r.goal@ == self.goal@,
            r.nodes.seq().len() == self.nodes.seq().len(),
            forall|i: int|
                0 <= i < self.nodes.seq().len() ==> r.nodes.seq()[i].same_as(
                    &self.nodes.seq()[i],
                ),
            r.edges@.len() == self.edges@.len(),
            forall|i: int| 0 <= i < self.edges@.len() ==> r.edges@[i].same_as(&self.edges@[i]),
            r.default_max_retry == self.default_max_retry,
            self.wf() ==> r.wf(),
    {
        let n = self.edges.len();
        let mut edges: Vec<AttractorEdge> = Vec::new();
        let mut i: usize = 0;
        while i < n
            invariant
                n == self.edges@.len(),
                i <= n,
                edges@.len() == i,
                forall|j: int| 0 <= j < i ==> edges@[j].same_as(&self.edges@[j]),
            decreases n - i,
        {
            edges.push(self.edges[i].duplicate());
            i = i + 1;
        }
        AttractorGraph {
            goal: self.goal.clone(),
            nodes: self.nodes.duplicate(),
            edges,
            default_max_retry: self.default_max_retry,
        }
    }
}

} // verus!
