//! Per-workflow working copies: git worktrees, overlay trees, or none at all.
//!
//! An operation is a pure function of what has been observed and done so far.
//! It either names the next piece of work for its driver, or it is over. Every
//! refusal fails closed: nothing falls back to the source tree.

pub mod catalog;
pub mod isolation;
pub mod manager;
pub mod namespace;
pub mod noop;
pub mod overlay;
pub mod steps;

use crate::lexical_path;
use crate::lexical_path::paths_agree;
use crate::render;
use crate::render::{debug_list, debug_millis, debug_text};
use crate::text;
use crate::text::{clone_opt_text, clone_texts, decimal, same_text, signed_decimal};
use vstd::prelude::*;
use vstd::std_specs::cmp::PartialEqSpecImpl;
use vstd::string::*;

verus! {

/// Branch namespace prefix for every workflow worktree branch.
pub const WORKFLOW_BRANCH_PREFIX: &'static str = "rpi/workflow/";

/// Directory name under the managed root holding per-workflow worktrees.
pub const WORKTREE_ROOT_DIR_NAME: &'static str = "workflow-worktrees";

/// Default timeout for a single git invocation, in milliseconds.
pub const DEFAULT_GIT_TIMEOUT_MS: u64 = 60000;

/// How workflow working copies are isolated.
#[derive(Clone, Copy, Debug, PartialEq, Eq, Structural)]
pub enum WorkflowIsolationSetting {
    Worktree,
    Overlayfs,
    /// Workflows work directly on the source tree.
    NoIsolation,
}

/// Typed failures for the worktree lifecycle. Callers treat every variant as
/// fail-closed.
#[derive(PartialEq, Eq)]
pub enum WorktreeError {
    NotGit,
    DirtyBase,
    DirtyWorktree(String),
    Symlink,
    OwnershipMismatch { workflow_id: String, detail: String },
    Timeout { timeout_ms: u64, args: Vec<String> },
    CommandFailed { status: i32, args: Vec<String>, stderr: String },
    NotRegistered(String),
    InvalidWorkflowId(String),
    Other(String),
}

/// The model of a failure.
#[verifier::ext_equal]
pub enum ErrorModel {
    NotGit,
    DirtyBase,
    DirtyWorktree(Seq<char>),
    Symlink,
    OwnershipMismatch { workflow_id: Seq<char>, detail: Seq<char> },
    Timeout { timeout_ms: u64, args: Seq<Seq<char>> },
    CommandFailed { status: i32, args: Seq<Seq<char>>, stderr: Seq<char> },
    NotRegistered(Seq<char>),
    InvalidWorkflowId(Seq<char>),
    Other(Seq<char>),
}

impl View for WorktreeError {
    type V = ErrorModel;

    open spec fn view(&self) -> ErrorModel {
        match *self {
            WorktreeError::NotGit => ErrorModel::NotGit,
            WorktreeError::DirtyBase => ErrorModel::DirtyBase,
            WorktreeError::DirtyWorktree(id) => ErrorModel::DirtyWorktree(id@),
            WorktreeError::Symlink => ErrorModel::Symlink,
            WorktreeError::OwnershipMismatch { workflow_id, detail } =>
            ErrorModel::OwnershipMismatch { workflow_id: workflow_id@, detail: detail@ },
            WorktreeError::Timeout { timeout_ms, args } => ErrorModel::Timeout {
                timeout_ms,
                args: text::texts(args@),
            },
            WorktreeError::CommandFailed { status, args, stderr } => ErrorModel::CommandFailed {
                status,
                args: text::texts(args@),
                stderr: stderr@,
            },
            WorktreeError::NotRegistered(id) => ErrorModel::NotRegistered(id@),
            WorktreeError::InvalidWorkflowId(id) => ErrorModel::InvalidWorkflowId(id@),
            WorktreeError::Other(message) => ErrorModel::Other(message@),
        }
    }
}

impl Clone for WorktreeError {
    fn clone(&self) -> (r: Self)
        ensures
            r@ == self@,
    {
        match self {
            WorktreeError::NotGit => WorktreeError::NotGit,
            WorktreeError::DirtyBase => WorktreeError::DirtyBase,
            WorktreeError::DirtyWorktree(id) => WorktreeError::DirtyWorktree(id.clone()),
            WorktreeError::Symlink => WorktreeError::Symlink,
            WorktreeError::OwnershipMismatch { workflow_id, detail } =>
            WorktreeError::OwnershipMismatch {
                workflow_id: workflow_id.clone(),
                detail: detail.clone(),
            },
            WorktreeError::Timeout { timeout_ms, args } => WorktreeError::Timeout {
                timeout_ms: *timeout_ms,
                args: clone_texts(args),
            },
            WorktreeError::CommandFailed { status, args, stderr } => WorktreeError::CommandFailed {
                status: *status,
                args: clone_texts(args),
                stderr: stderr.clone(),
            },
            WorktreeError::NotRegistered(id) => WorktreeError::NotRegistered(id.clone()),
            WorktreeError::InvalidWorkflowId(id) => WorktreeError::InvalidWorkflowId(id.clone()),
            WorktreeError::Other(message) => WorktreeError::Other(message.clone()),
        }
    }
}

impl ErrorModel {
    /// The message of the failure.
    pub open spec fn text(self) -> Seq<char> {
        match self {
            ErrorModel::NotGit => "source is not inside a git repository"@,
            ErrorModel::DirtyBase => "integration base is dirty; refusing to proceed"@,
            ErrorModel::DirtyWorktree(id) => "workflow worktree "@ + id
                + " is dirty; commit or discard its changes before integration"@,
            ErrorModel::Symlink => "refusing to operate through a symbolic link"@,
            ErrorModel::OwnershipMismatch { workflow_id, detail } =>
            "worktree ownership mismatch for workflow "@ + workflow_id + ": "@ + detail,
            ErrorModel::Timeout { timeout_ms, args } => "git command timed out after "@
                + render::debug_millis_of(timeout_ms) + ": git "@ + render::debug_list_of(args),
            ErrorModel::CommandFailed { status, args, stderr } => "git command failed (exit "@
                + text::signed_numeral(status as int) + "): git "@ + render::debug_list_of(args) + ": "@ + stderr,
            ErrorModel::NotRegistered(id) => "worktree not registered for workflow "@ + id,
            ErrorModel::InvalidWorkflowId(id) => "invalid workflow id "@ + render::debug_text_of(id),
            ErrorModel::Other(message) => "worktree operation failed: "@ + message,
        }
    }
}

impl WorktreeError {
    /// The message of the failure.
    pub fn message(&self) -> (r: String)
        ensures
            r@ == self@.text(),
    {
        match self {
            WorktreeError::NotGit => "source is not inside a git repository".to_owned(),
            WorktreeError::DirtyBase => "integration base is dirty; refusing to proceed".to_owned(),
            WorktreeError::DirtyWorktree(id) => "workflow worktree ".to_owned().concat(
                id.as_str(),
            ).concat(" is dirty; commit or discard its changes before integration"),
            WorktreeError::Symlink => "refusing to operate through a symbolic link".to_owned(),
            WorktreeError::OwnershipMismatch { workflow_id, detail } =>
            "worktree ownership mismatch for workflow ".to_owned().concat(
                workflow_id.as_str(),
            ).concat(": ").concat(detail.as_str()),
            WorktreeError::Timeout { timeout_ms, args } =>
            "git command timed out after ".to_owned().concat(
                debug_millis(*timeout_ms).as_str(),
            ).concat(": git ").concat(debug_list(args).as_str()),
            WorktreeError::CommandFailed { status, args, stderr } =>
            "git command failed (exit ".to_owned().concat(signed_decimal(*status as i64).as_str()).concat(
                "): git ",
            ).concat(debug_list(args).as_str()).concat(": ").concat(stderr.as_str()),
            WorktreeError::NotRegistered(id) => {
                "worktree not registered for workflow ".to_owned().concat(id.as_str())
            },
            WorktreeError::InvalidWorkflowId(id) => "invalid workflow id ".to_owned().concat(
                debug_text(id.as_str()).as_str(),
            ),
            WorktreeError::Other(message) => "worktree operation failed: ".to_owned().concat(
                message.as_str(),
            ),
        }
    }

    /// An ownership failure.
    pub fn ownership(workflow_id: &str, detail: &str) -> (r: Self)
        ensures
            r@ == ownership_error(workflow_id@, detail@),
    {
        WorktreeError::OwnershipMismatch {
            workflow_id: workflow_id.to_owned(),
            detail: detail.to_owned(),
        }
    }
}

/// An ownership failure.
pub open spec fn ownership_error(workflow_id: Seq<char>, detail: Seq<char>) -> ErrorModel {
    ErrorModel::OwnershipMismatch { workflow_id, detail }
}

/// Durable identity of a manager-owned working copy.
#[derive(Eq)]
pub struct WorkflowWorktreeIdentity {
    pub workflow_id: String,
    pub source_root: String,
    pub common_git_dir: String,
    pub worktree_path: String,
    pub branch: String,
    pub base_commit: String,
    pub head_commit: String,
    pub created_at_ms: u64,
}

/// The model of an identity.
#[verifier::ext_equal]
pub struct IdentityModel {
    pub workflow_id: Seq<char>,
    pub source_root: Seq<char>,
    pub common_git_dir: Seq<char>,
    pub worktree_path: Seq<char>,
    pub branch: Seq<char>,
    pub base_commit: Seq<char>,
    pub head_commit: Seq<char>,
    pub created_at_ms: u64,
}

impl View for WorkflowWorktreeIdentity {
    type V = IdentityModel;

    open spec fn view(&self) -> IdentityModel {
        IdentityModel {
            workflow_id: self.workflow_id@,
            source_root: self.source_root@,
            common_git_dir: self.common_git_dir@,
            worktree_path: self.worktree_path@,
            branch: self.branch@,
            base_commit: self.base_commit@,
            head_commit: self.head_commit@,
            created_at_ms: self.created_at_ms,
        }
    }
}

/// Whether two identities agree in every part: paths by their components,
/// everything else to the letter.
pub open spec fn same_identity(a: IdentityModel, b: IdentityModel) -> bool {
    &&& a.workflow_id == b.workflow_id
    &&& lexical_path::same_path(a.source_root, b.source_root)
    &&& lexical_path::same_path(a.common_git_dir, b.common_git_dir)
    &&& lexical_path::same_path(a.worktree_path, b.worktree_path)
    &&& a.branch == b.branch
    &&& a.base_commit == b.base_commit
    &&& a.head_commit == b.head_commit
    &&& a.created_at_ms == b.created_at_ms
}

impl PartialEqSpecImpl for WorkflowWorktreeIdentity {
    open spec fn obeys_eq_spec() -> bool {
        true
    }

    open spec fn eq_spec(&self, other: &Self) -> bool {
        same_identity(self@, other@)
    }
}

impl PartialEq for WorkflowWorktreeIdentity {
    fn eq(&self, other: &Self) -> (r: bool) {
        self.same_as(other)
    }
}

impl Clone for WorkflowWorktreeIdentity {
    fn clone(&self) -> (r: Self)
        ensures
            r == *self,
    {
        WorkflowWorktreeIdentity {
            workflow_id: self.workflow_id.clone(),
            source_root: self.source_root.clone(),
            common_git_dir: self.common_git_dir.clone(),
            worktree_path: self.worktree_path.clone(),
            branch: self.branch.clone(),
            base_commit: self.base_commit.clone(),
            head_commit: self.head_commit.clone(),
            created_at_ms: self.created_at_ms,
        }
    }
}

impl WorkflowWorktreeIdentity {
    pub fn workflow_id(&self) -> (r: &str)
        ensures
            r@ == self@.workflow_id,
    {
        self.workflow_id.as_str()
    }

    pub fn branch(&self) -> (r: &str)
        ensures
            r@ == self@.branch,
    {
        self.branch.as_str()
    }

    pub fn base_commit(&self) -> (r: &str)
        ensures
            r@ == self@.base_commit,
    {
        self.base_commit.as_str()
    }

    pub fn head_commit(&self) -> (r: &str)
        ensures
            r@ == self@.head_commit,
    {
        self.head_commit.as_str()
    }

    pub fn created_at_ms(&self) -> (r: u64)
        ensures
            r == self@.created_at_ms,
    {
        self.created_at_ms
    }

    /// Whether the two identities agree in every part: paths by their
    /// components, everything else to the letter.
    pub fn same_as(&self, other: &Self) -> (r: bool)
        ensures
            r == same_identity(self@, other@),
    {
        same_text(self.workflow_id.as_str(), other.workflow_id.as_str()) && paths_agree(
            self.source_root.as_str(),
            other.source_root.as_str(),
        ) && paths_agree(self.common_git_dir.as_str(), other.common_git_dir.as_str()) && paths_agree(
            self.worktree_path.as_str(),
            other.worktree_path.as_str(),
        ) && same_text(self.branch.as_str(), other.branch.as_str()) && same_text(
            self.base_commit.as_str(),
            other.base_commit.as_str(),
        ) && same_text(self.head_commit.as_str(), other.head_commit.as_str())
            && self.created_at_ms == other.created_at_ms
    }

    /// The parts of the identity that may be shown; no absolute path is among
    /// them.
    pub fn debug_text(&self) -> (r: String)
        ensures
            r@ == shown_identity(self@),
    {
        "WorkflowWorktreeIdentity { workflow_id: ".to_owned().concat(
            debug_text(self.workflow_id.as_str()).as_str(),
        ).concat(", branch: ").concat(debug_text(self.branch.as_str()).as_str()).concat(
            ", base_commit: ",
        ).concat(debug_text(self.base_commit.as_str()).as_str()).concat(", head_commit: ").concat(
            debug_text(self.head_commit.as_str()).as_str(),
        ).concat(", created_at_ms: ").concat(decimal(self.created_at_ms).as_str()).concat(", .. }")
    }
}

/// The parts of an identity that may be shown.
pub open spec fn shown_identity(i: IdentityModel) -> Seq<char> {
    "WorkflowWorktreeIdentity { workflow_id: "@ + render::debug_text_of(i.workflow_id) + ", branch: "@
        + render::debug_text_of(i.branch) + ", base_commit: "@ + render::debug_text_of(i.base_commit)
        + ", head_commit: "@ + render::debug_text_of(i.head_commit) + ", created_at_ms: "@
        + text::numeral(i.created_at_ms as nat) + ", .. }"@
}

/// What is shown of an identity does not depend on any of its paths.
pub proof fn law_shown_identity_hides_paths(a: IdentityModel, b: IdentityModel)
    requires
        a.workflow_id == b.workflow_id,
        a.branch == b.branch,
        a.base_commit == b.base_commit,
        a.head_commit == b.head_commit,
        a.created_at_ms == b.created_at_ms,
    ensures
        shown_identity(a) == shown_identity(b),
{
}

/// Opaque, manager-verified capability to enter an owned workflow checkout. It
/// is only made by the ownership checks of this module's managers.
#[derive(Eq)]
pub struct TrustedWorkflowCwd {
    path: String,
    workflow_id: String,
}

/// The model of a capability.
#[verifier::ext_equal]
pub struct CwdModel {
    pub path: Seq<char>,
    pub workflow_id: Seq<char>,
}

impl View for TrustedWorkflowCwd {
    type V = CwdModel;

    closed spec fn view(&self) -> CwdModel {
        CwdModel { path: self.path@, workflow_id: self.workflow_id@ }
    }
}

impl PartialEqSpecImpl for TrustedWorkflowCwd {
    open spec fn obeys_eq_spec() -> bool {
        true
    }

    open spec fn eq_spec(&self, other: &Self) -> bool {
        lexical_path::same_path(self@.path, other@.path) && self@.workflow_id
            == other@.workflow_id
    }
}

impl PartialEq for TrustedWorkflowCwd {
    fn eq(&self, other: &Self) -> (r: bool) {
        paths_agree(self.path.as_str(), other.path.as_str()) && same_text(
            self.workflow_id.as_str(),
            other.workflow_id.as_str(),
        )
    }
}

impl TrustedWorkflowCwd {
    pub(crate) fn mint(path: &str, workflow_id: &str) -> (r: Self)
        ensures
            r@ == (CwdModel { path: path@, workflow_id: workflow_id@ }),
    {
        TrustedWorkflowCwd { path: path.to_owned(), workflow_id: workflow_id.to_owned() }
    }

    /// The checkout that may be entered.
    pub fn path(&self) -> (r: &str)
        ensures
            r@ == self@.path,
    {
        self.path.as_str()
    }

    /// The workflow that owns the checkout.
    pub fn workflow_id(&self) -> (r: &str)
        ensures
            r@ == self@.workflow_id,
    {
        self.workflow_id.as_str()
    }

    /// The capability without its path.
    pub fn debug_text(&self) -> (r: String)
        ensures
            r@ == "TrustedWorkflowCwd { workflow_id: "@ + render::debug_text_of(self@.workflow_id)
                + ", .. }"@,
    {
        "TrustedWorkflowCwd { workflow_id: ".to_owned().concat(
            debug_text(self.workflow_id.as_str()).as_str(),
        ).concat(", .. }")
    }
}

/// Snapshot returned by inspection: identity plus working-tree status.
#[derive(PartialEq, Eq)]
pub struct WorkflowWorktreeStatus {
    pub identity: WorkflowWorktreeIdentity,
    pub dirty: bool,
    pub ahead_commits: u64,
    pub changed_files: Vec<String>,
}

/// The model of a status.
#[verifier::ext_equal]
pub struct StatusModel {
    pub identity: IdentityModel,
    pub dirty: bool,
    pub ahead_commits: u64,
    pub changed_files: Seq<Seq<char>>,
}

impl View for WorkflowWorktreeStatus {
    type V = StatusModel;

    open spec fn view(&self) -> StatusModel {
        StatusModel {
            identity: self.identity@,
            dirty: self.dirty,
            ahead_commits: self.ahead_commits,
            changed_files: text::texts(self.changed_files@),
        }
    }
}

impl WorkflowWorktreeStatus {
    /// The status, with the parts of the identity that may be shown.
    pub fn debug_text(&self) -> (r: String)
        ensures
            r@ == "WorkflowWorktreeStatus { identity: "@ + shown_identity(self@.identity)
                + ", dirty: "@ + (if self.dirty {
                "true"@
            } else {
                "false"@
            }) + ", ahead_commits: "@ + text::numeral(self.ahead_commits as nat)
                + ", changed_files: "@ + render::debug_list_of(self@.changed_files) + " }"@,
    {
        "WorkflowWorktreeStatus { identity: ".to_owned().concat(
            self.identity.debug_text().as_str(),
        ).concat(", dirty: ").concat(
            if self.dirty {
                "true"
            } else {
                "false"
            },
        ).concat(", ahead_commits: ").concat(decimal(self.ahead_commits).as_str()).concat(
            ", changed_files: ",
        ).concat(debug_list(&self.changed_files).as_str()).concat(" }")
    }
}

/// How integration merges the workflow branch back into the source base.
#[derive(Clone, Copy, Debug, PartialEq, Eq, Structural)]
pub enum IntegrateStrategy {
    /// Fast-forward when possible; otherwise create a merge commit.
    Merge,
    /// Replay workflow commits onto the current source HEAD.
    Rebase,
}

/// Outcome of an integration attempt.
#[derive(Debug, PartialEq, Eq)]
pub enum IntegrateOutcome {
    Applied { strategy: IntegrateStrategy, result_commit: String, merge_commit: Option<String> },
    Conflicted {
        strategy: IntegrateStrategy,
        conflicts: Vec<String>,
        workflow_id: String,
        branch: String,
        head_commit: String,
    },
}

/// The model of an outcome.
#[verifier::ext_equal]
pub enum OutcomeModel {
    Applied {
        strategy: IntegrateStrategy,
        result_commit: Seq<char>,
        merge_commit: Option<Seq<char>>,
    },
    Conflicted {
        strategy: IntegrateStrategy,
        conflicts: Seq<Seq<char>>,
        workflow_id: Seq<char>,
        branch: Seq<char>,
        head_commit: Seq<char>,
    },
}

impl View for IntegrateOutcome {
    type V = OutcomeModel;

    open spec fn view(&self) -> OutcomeModel {
        match *self {
            IntegrateOutcome::Applied { strategy, result_commit, merge_commit } =>
            OutcomeModel::Applied {
                strategy,
                result_commit: result_commit@,
                merge_commit: text::opt_text(merge_commit),
            },
            IntegrateOutcome::Conflicted {
                strategy,
                conflicts,
                workflow_id,
                branch,
                head_commit,
            } => OutcomeModel::Conflicted {
                strategy,
                conflicts: text::texts(conflicts@),
                workflow_id: workflow_id@,
                branch: branch@,
                head_commit: head_commit@,
            },
        }
    }
}

impl Clone for IntegrateOutcome {
    fn clone(&self) -> (r: Self)
        ensures
            r@ == self@,
    {
        match self {
            IntegrateOutcome::Applied { strategy, result_commit, merge_commit } =>
            IntegrateOutcome::Applied {
                strategy: *strategy,
                result_commit: result_commit.clone(),
                merge_commit: clone_opt_text(merge_commit),
            },
            IntegrateOutcome::Conflicted {
                strategy,
                conflicts,
                workflow_id,
                branch,
                head_commit,
            } => IntegrateOutcome::Conflicted {
                strategy: *strategy,
                conflicts: clone_texts(conflicts),
                workflow_id: workflow_id.clone(),
                branch: branch.clone(),
                head_commit: head_commit.clone(),
            },
        }
    }
}

/// Options controlling worktree creation.
#[derive(Debug, PartialEq, Eq)]
pub struct CreateWorktreeOptions {
    /// Absolute managed root that will hold the working copies. It must not be
    /// inside the source worktree.
    pub managed_root: String,
    /// Optional base commit; the source HEAD where there is none.
    pub base_commit: Option<String>,
    /// Git command timeout override, in milliseconds.
    pub timeout_ms: Option<u64>,
}

/// Options for integration.
#[derive(Debug, PartialEq, Eq)]
pub struct IntegrateOptions {
    pub strategy: IntegrateStrategy,
    /// Refuse if the source worktree is dirty.
    pub require_clean_base: bool,
    pub timeout_ms: Option<u64>,
}

impl Default for IntegrateOptions {
    fn default() -> (r: Self)
        ensures
            r.strategy == IntegrateStrategy::Merge,
            r.require_clean_base,
            r.timeout_ms is None,
    {
        IntegrateOptions {
            strategy: IntegrateStrategy::Merge,
            require_clean_base: true,
            timeout_ms: None,
        }
    }
}

/// Canonical repository discovery result.
#[derive(Eq)]
pub struct RepoDiscovery {
    pub repo_root: String,
    pub common_git_dir: String,
    pub git_dir: String,
    pub head_commit: String,
}

impl View for RepoDiscovery {
    type V = RepoDiscovery;

    open spec fn view(&self) -> RepoDiscovery {
        *self
    }
}

impl PartialEqSpecImpl for RepoDiscovery {
    open spec fn obeys_eq_spec() -> bool {
        true
    }

    open spec fn eq_spec(&self, other: &Self) -> bool {
        &&& lexical_path::same_path(self.repo_root@, other.repo_root@)
        &&& lexical_path::same_path(self.common_git_dir@, other.common_git_dir@)
        &&& lexical_path::same_path(self.git_dir@, other.git_dir@)
        &&& self.head_commit@ == other.head_commit@
    }
}

impl PartialEq for RepoDiscovery {
    fn eq(&self, other: &Self) -> (r: bool) {
        paths_agree(self.repo_root.as_str(), other.repo_root.as_str()) && paths_agree(
            self.common_git_dir.as_str(),
            other.common_git_dir.as_str(),
        ) && paths_agree(self.git_dir.as_str(), other.git_dir.as_str()) && same_text(
            self.head_commit.as_str(),
            other.head_commit.as_str(),
        )
    }
}

impl Clone for RepoDiscovery {
    fn clone(&self) -> (r: Self)
        ensures
            r == *self,
    {
        RepoDiscovery {
            repo_root: self.repo_root.clone(),
            common_git_dir: self.common_git_dir.clone(),
            git_dir: self.git_dir.clone(),
            head_commit: self.head_commit.clone(),
        }
    }
}

impl RepoDiscovery {
    /// The discovery without its paths.
    pub fn debug_text(&self) -> (r: String)
        ensures
            r@ == "RepoDiscovery { head_commit: "@ + render::debug_text_of(self.head_commit@) + ", .. }"@,
    {
        "RepoDiscovery { head_commit: ".to_owned().concat(
            debug_text(self.head_commit.as_str()).as_str(),
        ).concat(", .. }")
    }
}

} // verus!
