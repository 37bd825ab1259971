//! Result of executing a single pipeline node.

use vstd::prelude::*;

use crate::strutil;
use crate::types::context::RunContext;
use crate::types::outcome_status::OutcomeStatus;

verus! {

/// The view of an outcome: every field abstracted to sequences and
/// maps, so contracts can state outcomes exactly.
#[verifier::ext_equal]
pub ghost struct OutcomeView {
    pub status: OutcomeStatus,
    pub notes: Option<Seq<char>>,
    pub failure_reason: Option<Seq<char>>,
    pub updates: Map<Seq<char>, Seq<char>>,
    pub preferred_label: Option<Seq<char>>,
    pub suggested: Seq<Seq<char>>,
}

impl OutcomeView {
    /// The view of a bare success outcome with the given notes.
    pub open spec fn of_success(notes: Seq<char>) -> OutcomeView {
        OutcomeView {
            status: OutcomeStatus::Success,
            notes: Some(notes),
            failure_reason: None,
            updates: Map::empty(),
            preferred_label: None,
            suggested: Seq::empty(),
        }
    }

    /// The view of a bare error outcome with the given reason.
    pub open spec fn of_error(reason: Seq<char>) -> OutcomeView {
        OutcomeView {
            status: OutcomeStatus::Error,
            notes: None,
            failure_reason: Some(reason),
            updates: Map::empty(),
            preferred_label: None,
            suggested: Seq::empty(),
        }
    }
}

/// Result of executing a single pipeline node.
#[derive(Debug, Clone)]
pub struct NodeOutcome {
    pub status: OutcomeStatus,
    pub notes: Option<String>,
    pub failure_reason: Option<String>,
    pub context_updates: RunContext,
    pub preferred_label: Option<String>,
    pub suggested_next_ids: Vec<String>,
}

impl View for NodeOutcome {
    type V = OutcomeView;

    open spec fn view(&self) -> OutcomeView {
        OutcomeView {
            status: self.status,
            notes: strutil::opt_view(self.notes),
            failure_reason: strutil::opt_view(self.failure_reason),
            updates: self.context_updates.as_map(),
            preferred_label: strutil::opt_view(self.preferred_label),
            suggested: self.suggested_next_ids@.map_values(|s: String| s@),
        }
    }
}

impl NodeOutcome {
    /// Well-formed: the update map carries no duplicate keys.
    pub open spec fn wf(&self) -> bool {
        self.context_updates.wf()
    }

    /// A success outcome with the given notes and nothing else set.
    pub fn success(notes: &str) -> (r: NodeOutcome)
        ensures
            r.status == OutcomeStatus::Success,
            strutil::opt_view(r.notes) == Some(notes@),
            r.failure_reason is None,
            r.context_updates.kvs().len() == 0,
            r.preferred_label is None,
            r.suggested_next_ids@.len() == 0,
            r.wf(),
    {
        NodeOutcome {
            status: OutcomeStatus::Success,
            notes: Some(notes.to_owned()),
            failure_reason: None,
            context_updates: RunContext::new(),
            preferred_label: None,
            suggested_next_ids: Vec::new(),
        }
    }

    /// An error outcome with the given failure reason and nothing else set.
    pub fn error(reason: &str) -> (r: NodeOutcome)
        ensures
            r.status == OutcomeStatus::Error,
            r.notes is None,
            strutil::opt_view(r.failure_reason) == Some(reason@),
            r.context_updates.kvs().len() == 0,
            r.preferred_label is None,
            r.suggested_next_ids@.len() == 0,
            r.wf(),
    {
        NodeOutcome {
            status: OutcomeStatus::Error,
            notes: None,
            failure_reason: Some(reason.to_owned()),
            context_updates: RunContext::new(),
            preferred_label: None,
            suggested_next_ids: Vec::new(),
        }
    }

    /// The older name for an error outcome.
    pub fn fail(reason: &str) -> (r: NodeOutcome)
        ensures
            r.status == OutcomeStatus::Error,
            r.notes is None,
            strutil::opt_view(r.failure_reason) == Some(reason@),
            r.context_updates.kvs().len() == 0,
            r.preferred_label is None,
            r.suggested_next_ids@.len() == 0,
            r.wf(),
    {
        NodeOutcome::error(reason)
    }

    /// Field-wise sameness of two outcomes, up to string views.
    pub open spec fn same_as(&self, o: &NodeOutcome) -> bool {
        &&& self.status == o.status
        &&& strutil::opt_view(self.notes) == strutil::opt_view(o.notes)
        &&& strutil::opt_view(self.failure_reason) == strutil::opt_view(o.failure_reason)
        &&& self.context_updates.kvs().len() == o.context_updates.kvs().len()
        &&& forall|i: int|
            0 <= i < self.context_updates.kvs().len()
                ==> self.context_updates.kvs()[i].0@ == o.context_updates.kvs()[i].0@
                && self.context_updates.kvs()[i].1@ == o.context_updates.kvs()[i].1@
        &&& self.context_updates.as_map() == o.context_updates.as_map()
        &&& strutil::opt_view(self.preferred_label) == strutil::opt_view(o.preferred_label)
        &&& self.suggested_next_ids@.len() == o.suggested_next_ids@.len()
        &&& forall|i: int|
            0 <= i < self.suggested_next_ids@.len()
                ==> self.suggested_next_ids@[i]@ == o.suggested_next_ids@[i]@
    }

    /// Field-wise sameness pins the whole view.
    pub proof fn lemma_same_as_view(&self, o: &NodeOutcome)
        requires
            self.same_as(o),
        ensures
            self@ == o@,
    {
        assert(self.suggested_next_ids@.map_values(|s: String| s@)
            =~= o.suggested_next_ids@.map_values(|s: String| s@));
        assert(self@ =~~= o@);
    }

    /// An independent copy with the same fields.
    pub fn duplicate(&self) -> (r: NodeOutcome)
        ensures
            r.same_as(self),
            self.wf() ==> r.wf(),
    {
        NodeOutcome {
            status: self.status,
            notes: strutil::clone_opt_string(&self.notes),
            failure_reason: strutil::clone_opt_string(&self.failure_reason),
            context_updates: self.context_updates.duplicate(),
            preferred_label: strutil::clone_opt_string(&self.preferred_label),
            suggested_next_ids: strutil::clone_string_vec(&self.suggested_next_ids),
        }
    }
}

} // verus!
