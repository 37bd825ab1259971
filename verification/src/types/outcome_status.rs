//! Outcome status for a node execution.

use vstd::prelude::*;

verus! {

/// Outcome status for a node execution.
///
/// `Success` and `PartialSuccess` jointly count as "ok"; `Error` and
/// `Retry` do not.
#[derive(Clone, Copy, Debug, PartialEq, Eq, Structural)]
pub enum OutcomeStatus {
    Success,
    PartialSuccess,
    Error,
    Retry,
}

/// The lower-case wire name of a status, as written to logs.
pub open spec fn spec_status_name(s: OutcomeStatus) -> Seq<char> {
    match s {
        OutcomeStatus::Success => "success"@,
        OutcomeStatus::PartialSuccess => "partial_success"@,
        OutcomeStatus::Error => "error"@,
        OutcomeStatus::Retry => "retry"@,
    }
}

/// The capitalized variant name of a status, as recorded in the run
/// context's `outcome` key.
pub open spec fn spec_status_label(s: OutcomeStatus) -> Seq<char> {
    match s {
        OutcomeStatus::Success => "Success"@,
        OutcomeStatus::PartialSuccess => "PartialSuccess"@,
        OutcomeStatus::Error => "Error"@,
        OutcomeStatus::Retry => "Retry"@,
    }
}

/// True when the status counts as success.
pub open spec fn spec_status_ok(s: OutcomeStatus) -> bool {
    s == OutcomeStatus::Success || s == OutcomeStatus::PartialSuccess
}

impl OutcomeStatus {
    /// The lower-case wire name of this status.
    pub fn to_string(&self) -> (r: String)
        ensures
            r@ == spec_status_name(*self),
    {
        match self {
            OutcomeStatus::Success => "success".to_owned(),
            OutcomeStatus::PartialSuccess => "partial_success".to_owned(),
            OutcomeStatus::Error => "error".to_owned(),
            OutcomeStatus::Retry => "retry".to_owned(),
        }
    }

    /// The capitalized variant name of this status.
    pub fn label(&self) -> (r: String)
        ensures
            r@ == spec_status_label(*self),
    {
        match self {
            OutcomeStatus::Success => "Success".to_owned(),
            OutcomeStatus::PartialSuccess => "PartialSuccess".to_owned(),
            OutcomeStatus::Error => "Error".to_owned(),
            OutcomeStatus::Retry => "Retry".to_owned(),
        }
    }

    /// True when the status counts as success.
    pub fn is_ok(&self) -> (r: bool)
        ensures
            r == spec_status_ok(*self),
    {
        match self {
            OutcomeStatus::Success => true,
            OutcomeStatus::PartialSuccess => true,
            _ => false,
        }
    }
}

} // verus!
