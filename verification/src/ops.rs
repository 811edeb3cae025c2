//! Closed enumerations of the supervisor's vocabulary: operation kinds,
//! authentication states, cancellation signals and escalation stages, and
//! the two small cyclic enumerations the interface layer navigates with.

use vstd::prelude::*;

verus! {

/// Authentication status of one account. Transitions are driven only by
/// probe results or the login operation's outcome, never directly by input.
#[derive(Clone, Copy, Debug, PartialEq, Eq, Structural)]
pub enum AuthStatus {
    Unknown,
    Checking,
    Authenticated,
    Failed,
}

impl AuthStatus {
    /// What the one-character marker for the status shows.
    pub open spec fn spec_icon(self) -> Seq<char> {
        match self {
            AuthStatus::Unknown => "?"@,
            AuthStatus::Checking => "~"@,
            AuthStatus::Authenticated => "*"@,
            AuthStatus::Failed => "x"@,
        }
    }

    /// What the short name of the status says.
    pub open spec fn spec_label(self) -> Seq<char> {
        match self {
            AuthStatus::Unknown => "unknown"@,
            AuthStatus::Checking => "checking"@,
            AuthStatus::Authenticated => "ready"@,
            AuthStatus::Failed => "failed"@,
        }
    }

    /// One-character marker shown beside an account.
    pub fn icon(self) -> (r: &'static str)
        ensures
            r@ == self.spec_icon(),
    {
        match self {
            AuthStatus::Unknown => "?",
            AuthStatus::Checking => "~",
            AuthStatus::Authenticated => "*",
            AuthStatus::Failed => "x",
        }
    }

    /// Short human-readable name of the status.
    pub fn label(self) -> (r: &'static str)
        ensures
            r@ == self.spec_label(),
    {
        match self {
            AuthStatus::Unknown => "unknown",
            AuthStatus::Checking => "checking",
            AuthStatus::Authenticated => "ready",
            AuthStatus::Failed => "failed",
        }
    }
}

/// Which of the three panels currently has focus.
#[derive(Clone, Copy, Debug, PartialEq, Eq, Structural)]
pub enum FocusPanel {
    Accounts,
    Workspaces,
    Output,
}

impl FocusPanel {
    /// The panel after this one, cycling forward.
    pub open spec fn spec_next(self) -> FocusPanel {
        match self {
            FocusPanel::Accounts => FocusPanel::Workspaces,
            FocusPanel::Workspaces => FocusPanel::Output,
            FocusPanel::Output => FocusPanel::Accounts,
        }
    }

    /// The panel before this one, cycling backward.
    pub open spec fn spec_previous(self) -> FocusPanel {
        match self {
            FocusPanel::Accounts => FocusPanel::Output,
            FocusPanel::Workspaces => FocusPanel::Accounts,
            FocusPanel::Output => FocusPanel::Workspaces,
        }
    }

    /// The panel after this one, cycling forward.
    #[verifier::when_used_as_spec(spec_next)]
    pub fn next(self) -> (r: Self)
        ensures
            r == self.spec_next(),
    {
        match self {
            FocusPanel::Accounts => FocusPanel::Workspaces,
            FocusPanel::Workspaces => FocusPanel::Output,
            FocusPanel::Output => FocusPanel::Accounts,
        }
    }

    /// The panel before this one, cycling backward.
    #[verifier::when_used_as_spec(spec_previous)]
    pub fn previous(self) -> (r: Self)
        ensures
            r == self.spec_previous(),
            r.spec_next() == self,
    {
        match self {
            FocusPanel::Accounts => FocusPanel::Output,
            FocusPanel::Workspaces => FocusPanel::Accounts,
            FocusPanel::Output => FocusPanel::Workspaces,
        }
    }
}

/// Whether the interface shows all panels or only the output log.
#[derive(Clone, Copy, Debug, PartialEq, Eq, Structural)]
pub enum LayoutMode {
    Split,
    OutputOnly,
}

impl LayoutMode {
    /// What the short name of the layout mode says.
    pub open spec fn spec_label(self) -> Seq<char> {
        match self {
            LayoutMode::Split => "split"@,
            LayoutMode::OutputOnly => "output"@,
        }
    }

    /// Short name of the layout mode.
    pub fn label(self) -> (r: &'static str)
        ensures
            r@ == self.spec_label(),
    {
        match self {
            LayoutMode::Split => "split",
            LayoutMode::OutputOnly => "output",
        }
    }
}

/// The kinds of long-running operation the supervisor may run, at most one
/// at a time application-wide.
#[derive(Clone, Copy, Debug, PartialEq, Eq, Structural)]
pub enum OperationKind {
    AuthLogin,
    RefreshWorkspaces,
    TerraformInit,
    TerraformPlan,
    TerraformApply,
}

impl OperationKind {
    /// What the human-readable name of the operation says.
    pub open spec fn spec_label(self) -> Seq<char> {
        match self {
            OperationKind::AuthLogin => "aws sso login"@,
            OperationKind::RefreshWorkspaces => "workspace refresh"@,
            OperationKind::TerraformInit => "terraform init"@,
            OperationKind::TerraformPlan => "terraform plan"@,
            OperationKind::TerraformApply => "terraform apply"@,
        }
    }

    /// Whether the operation acts on one selected workspace.
    pub open spec fn spec_requires_workspace(self) -> bool {
        self == OperationKind::TerraformPlan || self == OperationKind::TerraformApply
    }

    /// Human-readable name of the operation.
    pub fn label(self) -> (r: &'static str)
        ensures
            r@ == self.spec_label(),
    {
        match self {
            OperationKind::AuthLogin => "aws sso login",
            OperationKind::RefreshWorkspaces => "workspace refresh",
            OperationKind::TerraformInit => "terraform init",
            OperationKind::TerraformPlan => "terraform plan",
            OperationKind::TerraformApply => "terraform apply",
        }
    }

    /// Plan and apply act on one selected workspace; the other operations do
    /// not need a workspace selection.
    #[verifier::when_used_as_spec(spec_requires_workspace)]
    pub fn requires_workspace(self) -> (r: bool)
        ensures
            r == self.spec_requires_workspace(),
    {
        match self {
            OperationKind::TerraformPlan => true,
            OperationKind::TerraformApply => true,
            _ => false,
        }
    }
}

/// Value propagated from the supervisor to the command runner on the
/// cancellation channel. The runner observes it without consuming it, so
/// repeated observations of the same value are safe.
#[derive(Clone, Copy, Debug, PartialEq, Eq, Structural)]
pub enum CancelSignal {
    Idle,
    Graceful,
    Force,
}

/// How far the user has escalated cancellation of the inflight operation.
/// Advances one step per explicit request and never goes back.
#[derive(Clone, Copy, Debug, PartialEq, Eq, Structural)]
pub enum CancelStage {
    NotRequested,
    GracefulRequested,
    ForceRequested,
}

impl CancelStage {
    /// Order of the escalation stages: `NotRequested` before
    /// `GracefulRequested` before `ForceRequested`.
    pub open spec fn rank(self) -> int {
        match self {
            CancelStage::NotRequested => 0,
            CancelStage::GracefulRequested => 1,
            CancelStage::ForceRequested => 2,
        }
    }

    /// The stage after one more cancellation request; `ForceRequested` is
    /// absorbing.
    pub open spec fn escalated(self) -> CancelStage {
        match self {
            CancelStage::NotRequested => CancelStage::GracefulRequested,
            CancelStage::GracefulRequested => CancelStage::ForceRequested,
            CancelStage::ForceRequested => CancelStage::ForceRequested,
        }
    }

    /// The signal pushed onto the cancellation channel by one request made
    /// at this stage; nothing is re-sent once force has been requested.
    pub open spec fn escalation_signal(self) -> Option<CancelSignal> {
        match self {
            CancelStage::NotRequested => Some(CancelSignal::Graceful),
            CancelStage::GracefulRequested => Some(CancelSignal::Force),
            CancelStage::ForceRequested => None,
        }
    }
}

} // verus!
