//! Canonical workflow domain types and workflow orchestration.

pub mod detail;
pub mod manager;
pub mod records;
pub mod store;
pub mod supervisor;
pub mod todo;

use vstd::prelude::*;

verus! {

/// Opaque stable identity for one workflow.
#[derive(Debug, PartialEq, Eq, PartialOrd, Ord, Hash)]
pub struct WorkflowId(pub String);

impl View for WorkflowId {
    type V = Seq<char>;

    open spec fn view(&self) -> Seq<char> {
        self.0@
    }
}

impl Clone for WorkflowId {
    fn clone(&self) -> (r: Self)
        ensures
            r == *self,
    {
        WorkflowId(self.0.clone())
    }
}

impl WorkflowId {
    /// The identity with the given text.
    pub fn new(value: &str) -> (r: Self)
        ensures
            r@ == value@,
    {
        WorkflowId(value.to_owned())
    }

    /// The text of the identity.
    pub fn as_str(&self) -> (r: &str)
        ensures
            r@ == self@,
    {
        self.0.as_str()
    }
}

impl vstd::std_specs::convert::FromSpecImpl<String> for WorkflowId {
    open spec fn obeys_from_spec() -> bool {
        true
    }

    open spec fn from_spec(value: String) -> Self {
        WorkflowId(value)
    }
}

impl From<String> for WorkflowId {
    fn from(value: String) -> (r: Self) {
        WorkflowId(value)
    }
}

impl<'a> vstd::std_specs::convert::FromSpecImpl<&'a str> for WorkflowId {
    open spec fn obeys_from_spec() -> bool {
        false
    }

    open spec fn from_spec(value: &'a str) -> Self {
        arbitrary()
    }
}

impl<'a> From<&'a str> for WorkflowId {
    fn from(value: &'a str) -> (r: Self)
        ensures
            r@ == value@,
    {
        WorkflowId::new(value)
    }
}

/// Durable lifecycle state of a workflow.
#[derive(Clone, Copy, Debug, PartialEq, Eq, Structural, Hash)]
pub enum WorkflowStatus {
    Queued,
    Planning,
    Running,
    Paused,
    Integrating,
    Completed,
    Failed,
    Cancelled,
    Conflicted,
}

impl WorkflowStatus {
    /// The wire name of the status.
    pub open spec fn name(self) -> Seq<char> {
        match self {
            WorkflowStatus::Queued => "queued"@,
            WorkflowStatus::Planning => "planning"@,
            WorkflowStatus::Running => "running"@,
            WorkflowStatus::Paused => "paused"@,
            WorkflowStatus::Integrating => "integrating"@,
            WorkflowStatus::Completed => "completed"@,
            WorkflowStatus::Failed => "failed"@,
            WorkflowStatus::Cancelled => "cancelled"@,
            WorkflowStatus::Conflicted => "conflicted"@,
        }
    }

    /// Whether the workflow can still move.
    pub open spec fn active(self) -> bool {
        self == WorkflowStatus::Queued || self == WorkflowStatus::Planning || self
            == WorkflowStatus::Running || self == WorkflowStatus::Paused || self
            == WorkflowStatus::Integrating
    }

    /// Whether the workflow has settled for good.
    pub open spec fn terminal(self) -> bool {
        self == WorkflowStatus::Completed || self == WorkflowStatus::Failed || self
            == WorkflowStatus::Cancelled || self == WorkflowStatus::Conflicted
    }

    /// The wire name of the status.
    pub fn as_str(self) -> (r: &'static str)
        ensures
            r@ == self.name(),
    {
        match self {
            WorkflowStatus::Queued => "queued",
            WorkflowStatus::Planning => "planning",
            WorkflowStatus::Running => "running",
            WorkflowStatus::Paused => "paused",
            WorkflowStatus::Integrating => "integrating",
            WorkflowStatus::Completed => "completed",
            WorkflowStatus::Failed => "failed",
            WorkflowStatus::Cancelled => "cancelled",
            WorkflowStatus::Conflicted => "conflicted",
        }
    }

    /// Whether the workflow can still move.
    pub fn is_active(self) -> (r: bool)
        ensures
            r == self.active(),
    {
        matches!(
            self,
            WorkflowStatus::Queued | WorkflowStatus::Planning | WorkflowStatus::Running
                | WorkflowStatus::Paused | WorkflowStatus::Integrating
        )
    }

    /// Whether the workflow has settled for good.
    pub fn is_terminal(self) -> (r: bool)
        ensures
            r == self.terminal(),
    {
        matches!(
            self,
            WorkflowStatus::Completed | WorkflowStatus::Failed | WorkflowStatus::Cancelled
                | WorkflowStatus::Conflicted
        )
    }
}

/// Every status is either active or terminal, never both.
pub proof fn law_status_is_active_or_terminal(status: WorkflowStatus)
    ensures
        status.active() != status.terminal(),
{
}

/// Distinct statuses have distinct wire names.
pub proof fn law_status_names_are_distinct(a: WorkflowStatus, b: WorkflowStatus)
    ensures
        a.name() == b.name() ==> a == b,
{
    reveal_strlit("queued");
    reveal_strlit("planning");
    reveal_strlit("running");
    reveal_strlit("paused");
    reveal_strlit("integrating");
    reveal_strlit("completed");
    reveal_strlit("failed");
    reveal_strlit("cancelled");
    reveal_strlit("conflicted");
    let x = a.name();
    let y = b.name();
    assert(x == y ==> x.len() == y.len() && x[0] == y[0] && x[3] == y[3]);
}

/// Explicit ownership metadata attached to work delegated by a workflow.
#[derive(Debug, PartialEq, Eq, Hash)]
pub struct WorkflowTaskOwnership {
    pub workflow_id: String,
    pub todo_task_id: String,
    pub generation: u64,
}

} // verus!
