//! The event vocabulary of the engine: every result a background task
//! produces crosses to the state reconciler as one of these immutable,
//! self-contained values, over a single ordered channel.

use vstd::prelude::*;
use crate::ops::AuthStatus;
use crate::ops::OperationKind;

verus! {

/// One result reported by a background task: a line of command output, an
/// account's new authentication status, a loaded workspace list, or the
/// completion of the single inflight operation.
#[derive(Debug)]
pub enum WorkerEvent {
    /// One line of output, appended to the bounded log.
    OutputLine(String),
    /// The named account's authentication status changed.
    AccountAuthUpdate { account_idx: usize, status: AuthStatus, message: String },
    /// The workspace listing for an account finished.
    WorkspacesLoaded { account_idx: usize, workspaces: Vec<String> },
    /// An operation finished; the supervisor clears its slot only when kind
    /// and account match the inflight record.
    OperationFinished {
        kind: OperationKind,
        account_idx: usize,
        success: bool,
        cancelled: bool,
        message: String,
    },
}

} // verus!
