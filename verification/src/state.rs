//! The application state and the two components that own it: the operation
//! supervisor, which enforces the single-flight invariant and the
//! user-paced cancellation escalation, and the state reconciler, which is
//! the sole mutator of this state and applies every cross-task event
//! deterministically.

use vstd::prelude::*;
use vstd::string::StringExecFns;
use crate::account::Account;
use crate::ops::AuthStatus;
use crate::ops::CancelSignal;
use crate::ops::CancelStage;
use crate::ops::FocusPanel;
use crate::ops::LayoutMode;
use crate::ops::OperationKind;
use crate::text::views_of;
use crate::text::sort_names;
use crate::text::spec_udec;
use crate::text::u64_to_dec;
use crate::events::WorkerEvent;
use crate::preflight::FsProbe;
use vstd::pervasive::VecAdditionalExecFns;

verus! {

/// Hard capacity of the output log; the oldest excess lines are evicted
/// from the front when it is exceeded.
pub const OUTPUT_BUFFER_LIMIT: usize = 4000;

/// The record of the one operation that may run at a time: its kind, the
/// account it targets, and how far its cancellation has been escalated.
/// The cancellation channel itself lives with the caller that spawned the
/// operation; this record drives it.
#[derive(Clone, Copy, Debug, PartialEq, Eq, Structural)]
pub struct InflightOperation {
    pub kind: OperationKind,
    pub account_idx: usize,
    pub cancel_stage: CancelStage,
}

/// The whole application state, owned and mutated by one execution context
/// only; every other task reports through events.
#[derive(Debug)]
pub struct AppState {
    pub accounts: Vec<Account>,
    pub selected_account: usize,
    pub selected_workspace: usize,
    pub focused_panel: FocusPanel,
    pub previous_focus_panel: FocusPanel,
    pub layout_mode: LayoutMode,
    pub output_lines: Vec<String>,
    pub output_scroll_from_bottom: usize,
    pub status_line: String,
    pub inflight: Option<InflightOperation>,
    pub pending_apply_confirmation: bool,
    pub show_help: bool,
    pub quit_requested: bool,
}

/// What appending one line to the bounded log yields: the line at the
/// back, and just enough evicted from the front to hold the capacity.
pub open spec fn spec_push_bounded(buf: Seq<Seq<char>>, line: Seq<char>, cap: nat) -> Seq<
    Seq<char>,
> {
    let grown = buf.push(line);
    if grown.len() > cap {
        grown.skip((grown.len() - cap) as int)
    } else {
        grown
    }
}

/// What appending several lines in order yields.
pub open spec fn spec_push_all(buf: Seq<Seq<char>>, lines: Seq<Seq<char>>, cap: nat) -> Seq<
    Seq<char>,
>
    decreases lines.len(),
{
    if lines.len() == 0 {
        buf
    } else {
        spec_push_bounded(spec_push_all(buf, lines.drop_last(), cap), lines.last(), cap)
    }
}

/// Granting a start request: refused whenever the slot is taken, however
/// the request reads; granted on an empty slot, recording the new
/// operation with its escalation at the start.
pub open spec fn spec_try_begin(
    slot: Option<InflightOperation>,
    kind: OperationKind,
    account_idx: usize,
) -> (Option<InflightOperation>, bool) {
    if slot is Some {
        (slot, false)
    } else {
        (
            Some(InflightOperation { kind, account_idx, cancel_stage: CancelStage::NotRequested }),
            true,
        )
    }
}

/// Reconciling a completion against the slot: cleared only when both the
/// kind and the account of the completion match the inflight record; a
/// stale or foreign completion leaves the slot untouched.
pub open spec fn spec_clear_on_finish(
    slot: Option<InflightOperation>,
    kind: OperationKind,
    account_idx: usize,
) -> Option<InflightOperation> {
    match slot {
        Some(op) => {
            if op.kind == kind && op.account_idx == account_idx {
                None
            } else {
                slot
            }
        },
        None => slot,
    }
}

/// One cancellation request against the slot: the escalation stage
/// advances one step and the signal for that step, if any, is pushed; an
/// empty slot ignores the request.
pub open spec fn spec_cancel_step(slot: Option<InflightOperation>) -> (
    Option<InflightOperation>,
    Option<CancelSignal>,
) {
    match slot {
        Some(op) => {
            (
                Some(
                    InflightOperation {
                        kind: op.kind,
                        account_idx: op.account_idx,
                        cancel_stage: op.cancel_stage.escalated(),
                    },
                ),
                op.cancel_stage.escalation_signal(),
            )
        },
        None => (slot, None),
    }
}

/// The two states agree on everything but the output log.
pub open spec fn unchanged_but_output(a: AppState, b: AppState) -> bool {
    &&& b.accounts == a.accounts
    &&& b.selected_account == a.selected_account
    &&& b.selected_workspace == a.selected_workspace
    &&& b.focused_panel == a.focused_panel
    &&& b.previous_focus_panel == a.previous_focus_panel
    &&& b.layout_mode == a.layout_mode
    &&& b.output_scroll_from_bottom == a.output_scroll_from_bottom
    &&& b.status_line == a.status_line
    &&& b.inflight == a.inflight
    &&& b.pending_apply_confirmation == a.pending_apply_confirmation
    &&& b.show_help == a.show_help
    &&& b.quit_requested == a.quit_requested
}

/// The two states agree on everything but the output log, the status
/// line, the inflight slot and the pending apply confirmation: the fields
/// a cancellation request or a completion may touch.
pub open spec fn unchanged_core(a: AppState, b: AppState) -> bool {
    &&& b.accounts == a.accounts
    &&& b.selected_account == a.selected_account
    &&& b.selected_workspace == a.selected_workspace
    &&& b.focused_panel == a.focused_panel
    &&& b.previous_focus_panel == a.previous_focus_panel
    &&& b.layout_mode == a.layout_mode
    &&& b.output_scroll_from_bottom == a.output_scroll_from_bottom
    &&& b.show_help == a.show_help
    &&& b.quit_requested == a.quit_requested
}

impl AppState {
    /// The output log's contents, as a sequence of lines.
    pub open spec fn output(self) -> Seq<Seq<char>> {
        views_of(self.output_lines@)
    }

    /// An operation is inflight.
    pub open spec fn spec_busy(&self) -> bool {
        self.inflight is Some
    }

    /// Whether an operation is currently inflight.
    #[verifier::when_used_as_spec(spec_busy)]
    pub fn is_busy(&self) -> (r: bool)
        ensures
            r == self.spec_busy(),
    {
        self.inflight.is_some()
    }

    /// Appends one line to the output log, evicting the oldest lines when
    /// the capacity is exceeded. Nothing else changes.
    pub fn push_output(&mut self, line: String)
        ensures
            final(self).output() == spec_push_bounded(
                old(self).output(),
                line@,
                OUTPUT_BUFFER_LIMIT as nat,
            ),
            unchanged_but_output(*old(self), *final(self)),
    {
        let ghost buf0 = self.output();
        self.output_lines.push(line);
        let ghost grown = self.output();
        proof {
            assert(grown =~= buf0.push(line@));
        }
        while self.output_lines.len() > OUTPUT_BUFFER_LIMIT
            invariant
                self.output() == grown.skip(grown.len() - self.output_lines@.len()),
                self.output_lines@.len() <= grown.len(),
                self.output_lines@.len() >= OUTPUT_BUFFER_LIMIT || self.output_lines@.len()
                    == grown.len(),
                grown == buf0.push(line@),
                unchanged_but_output(*old(self), *self),
            decreases self.output_lines@.len(),
        {
            let ghost before = self.output();
            self.output_lines.remove(0);
            proof {
                assert(self.output() =~= before.skip(1));
                assert(before.skip(1) =~= grown.skip(grown.len() - before.len() + 1));
            }
        }
        proof {
            assert(grown.skip(0) =~= grown);
        }
    }

    /// Replaces the status line. Nothing else changes.
    pub fn set_status(&mut self, status: String)
        ensures
            final(self).status_line == status,
            final(self).output_lines == old(self).output_lines,
            unchanged_core(*old(self), *final(self)),
            final(self).inflight == old(self).inflight,
            final(self).pending_apply_confirmation == old(self).pending_apply_confirmation,
    {
        self.status_line = status;
    }

    /// Withdraws a pending apply confirmation.
    pub fn clear_apply_confirmation(&mut self)
        ensures
            final(self).pending_apply_confirmation == false,
            final(self).output_lines == old(self).output_lines,
            final(self).status_line == old(self).status_line,
            final(self).inflight == old(self).inflight,
            unchanged_core(*old(self), *final(self)),
    {
        self.pending_apply_confirmation = false;
    }

    /// Shows the help overlay when hidden and hides it when shown.
    pub fn toggle_help(&mut self)
        ensures
            *final(self) == (AppState { show_help: !old(self).show_help, ..*old(self) }),
    {
        self.show_help = !self.show_help;
    }

    /// Hides the help overlay.
    pub fn close_help(&mut self)
        ensures
            *final(self) == (AppState { show_help: false, ..*old(self) }),
    {
        self.show_help = false;
    }

    /// Only the output log fills the screen.
    pub open spec fn spec_output_only(&self) -> bool {
        self.layout_mode == LayoutMode::OutputOnly
    }

    /// Whether only the output log fills the screen.
    #[verifier::when_used_as_spec(spec_output_only)]
    pub fn is_output_only(&self) -> (r: bool)
        ensures
            r == self.spec_output_only(),
    {
        matches!(self.layout_mode, LayoutMode::OutputOnly)
    }

    /// Fills the screen with the output log, remembering which panel had
    /// focus so leaving restores it.
    pub fn enter_output_only(&mut self)
        ensures
            *final(self) == (AppState {
                layout_mode: LayoutMode::OutputOnly,
                focused_panel: FocusPanel::Output,
                previous_focus_panel: if old(self).layout_mode == LayoutMode::Split {
                    old(self).focused_panel
                } else {
                    old(self).previous_focus_panel
                },
                ..*old(self)
            }),
    {
        if matches!(self.layout_mode, LayoutMode::Split) {
            self.previous_focus_panel = self.focused_panel;
        }
        self.layout_mode = LayoutMode::OutputOnly;
        self.focused_panel = FocusPanel::Output;
    }

    /// Returns from the full-screen output log to the split layout,
    /// restoring the remembered focus; does nothing in the split layout.
    pub fn exit_output_only(&mut self)
        ensures
            *final(self) == if old(self).layout_mode == LayoutMode::Split {
                *old(self)
            } else {
                AppState {
                    layout_mode: LayoutMode::Split,
                    focused_panel: old(self).previous_focus_panel,
                    ..*old(self)
                }
            },
    {
        if matches!(self.layout_mode, LayoutMode::Split) {
            return ;
        }
        self.layout_mode = LayoutMode::Split;
        self.focused_panel = self.previous_focus_panel;
    }

    /// Switches between the split layout and the full-screen output log.
    pub fn toggle_output_only(&mut self)
        ensures
            old(self).spec_output_only() ==> *final(self) == (AppState {
                layout_mode: LayoutMode::Split,
                focused_panel: old(self).previous_focus_panel,
                ..*old(self)
            }),
            !old(self).spec_output_only() ==> *final(self) == (AppState {
                layout_mode: LayoutMode::OutputOnly,
                focused_panel: FocusPanel::Output,
                previous_focus_panel: old(self).focused_panel,
                ..*old(self)
            }),
    {
        if self.is_output_only() {
            self.exit_output_only();
        } else {
            self.enter_output_only();
        }
    }

    /// The currently selected account, when the selection is in range.
    pub fn selected_account(&self) -> (r: Option<&Account>)
        ensures
            match r {
                Some(a) => self.selected_account < self.accounts@.len() && *a
                    == self.accounts@[self.selected_account as int],
                None => self.selected_account >= self.accounts@.len(),
            },
    {
        if self.selected_account < self.accounts.len() {
            Some(&self.accounts[self.selected_account])
        } else {
            None
        }
    }

    /// The name of the currently selected workspace of the selected
    /// account, when both selections are in range.
    pub fn selected_workspace_name(&self) -> (r: Option<String>)
        ensures
            match r {
                Some(name) => {
                    &&& self.selected_account < self.accounts@.len()
                    &&& self.selected_workspace
                        < self.accounts@[self.selected_account as int].workspaces@.len()
                    &&& name@ == self.accounts@[self.selected_account as int].workspaces@[
                        self.selected_workspace as int]@
                },
                None => self.selected_account >= self.accounts@.len() || self.selected_workspace
                    >= self.accounts@[self.selected_account as int].workspaces@.len(),
            },
    {
        if self.selected_account >= self.accounts.len() {
            return None;
        }
        let account = &self.accounts[self.selected_account];
        if self.selected_workspace >= account.workspaces.len() {
            return None;
        }
        Some(account.workspaces[self.selected_workspace].clone())
    }

    /// What the title line reports: the running operation and its account,
    /// or the status line when nothing is inflight.
    pub open spec fn spec_operation_label(self) -> Seq<char> {
        match self.inflight {
            Some(op) => "running "@ + op.kind.spec_label() + " on "@ + (if op.account_idx
                < self.accounts@.len() {
                self.accounts@[op.account_idx as int].name@
            } else {
                "?"@
            }),
            None => self.status_line@,
        }
    }

    /// Renders the title line: the running operation and its account, or
    /// the status line when nothing is inflight.
    pub fn current_operation_label(&self) -> (r: String)
        ensures
            r@ == self.spec_operation_label(),
    {
        match &self.inflight {
            Some(op) => {
                let mut m = String::from_str("running ");
                m.append(op.kind.label());
                m.append(" on ");
                if op.account_idx < self.accounts.len() {
                    m.append(self.accounts[op.account_idx].name.as_str());
                } else {
                    m.append("?");
                }
                m
            },
            None => self.status_line.clone(),
        }
    }

    /// Moves the selection up one entry in the focused panel, or scrolls
    /// the output log up one line when it has focus. Moving up in the
    /// account list resets the workspace selection.
    pub fn move_selection_up(&mut self)
        ensures
            match old(self).focused_panel {
                FocusPanel::Accounts => *final(self) == if old(self).selected_account > 0 {
                    AppState {
                        selected_account: (old(self).selected_account - 1) as usize,
                        selected_workspace: 0,
                        ..*old(self)
                    }
                } else {
                    *old(self)
                },
                FocusPanel::Workspaces => *final(self) == if old(self).selected_workspace > 0 {
                    AppState {
                        selected_workspace: (old(self).selected_workspace - 1) as usize,
                        ..*old(self)
                    }
                } else {
                    *old(self)
                },
                FocusPanel::Output => *final(self) == (AppState {
                    output_scroll_from_bottom: if old(self).output_scroll_from_bottom
                        < usize::MAX {
                        (old(self).output_scroll_from_bottom + 1) as usize
                    } else {
                        usize::MAX
                    },
                    ..*old(self)
                }),
            },
    {
        match self.focused_panel {
            FocusPanel::Accounts => {
                if self.selected_account > 0 {
                    self.selected_account = self.selected_account - 1;
                    self.selected_workspace = 0;
                }
            },
            FocusPanel::Workspaces => {
                if self.selected_workspace > 0 {
                    self.selected_workspace = self.selected_workspace - 1;
                }
            },
            FocusPanel::Output => {
                self.output_scroll_from_bottom = saturating_add_one(
                    self.output_scroll_from_bottom,
                );
            },
        }
    }

    /// Moves the selection down one entry in the focused panel, or scrolls
    /// the output log down one line when it has focus. Moving down in the
    /// account list resets the workspace selection.
    pub fn move_selection_down(&mut self)
        ensures
            match old(self).focused_panel {
                FocusPanel::Accounts => *final(self) == if old(self).selected_account + 1
                    < old(self).accounts@.len() {
                    AppState {
                        selected_account: (old(self).selected_account + 1) as usize,
                        selected_workspace: 0,
                        ..*old(self)
                    }
                } else {
                    *old(self)
                },
                FocusPanel::Workspaces => *final(self) == if old(self).selected_account < old(self).accounts@.len() && old(self).selected_workspace + 1 < old(self).accounts@[old(self).selected_account as int].workspaces@.len() {
                    AppState {
                        selected_workspace: (old(self).selected_workspace + 1) as usize,
                        ..*old(self)
                    }
                } else {
                    *old(self)
                },
                FocusPanel::Output => *final(self) == (AppState {
                    output_scroll_from_bottom: if old(self).output_scroll_from_bottom > 0 {
                        (old(self).output_scroll_from_bottom - 1) as usize
                    } else {
                        0
                    },
                    ..*old(self)
                }),
            },
    {
        match self.focused_panel {
            FocusPanel::Accounts => {
                let max_idx = if self.accounts.len() > 0 {
                    self.accounts.len() - 1
                } else {
                    0
                };
                if self.selected_account < max_idx {
                    self.selected_account = self.selected_account + 1;
                    self.selected_workspace = 0;
                }
            },
            FocusPanel::Workspaces => {
                if self.selected_account < self.accounts.len() {
                    let count = self.accounts[self.selected_account].workspaces.len();
                    let max_idx = if count > 0 {
                        count - 1
                    } else {
                        0
                    };
                    if self.selected_workspace < max_idx {
                        self.selected_workspace = self.selected_workspace + 1;
                    }
                }
            },
            FocusPanel::Output => {
                if self.output_scroll_from_bottom > 0 {
                    self.output_scroll_from_bottom = self.output_scroll_from_bottom - 1;
                }
            },
        }
    }
}

/// Adds one, stopping at the greatest representable value.
fn saturating_add_one(x: usize) -> (r: usize)
    ensures
        r == if x < usize::MAX {
            (x + 1) as usize
        } else {
            usize::MAX
        },
{
    if x < usize::MAX {
        x + 1
    } else {
        x
    }
}



/// The whole transition of one cancellation request: the slot's
/// escalation advances one step and the matching signal is reported; the
/// log and status record the step taken, and a repeated request at the
/// forced stage reports no signal at all.
pub open spec fn rel_cancel(pre: AppState, post: AppState, sig: Option<CancelSignal>) -> bool {
    &&& post.inflight == spec_cancel_step(pre.inflight).0
    &&& sig == spec_cancel_step(pre.inflight).1
    &&& unchanged_core(pre, post)
    &&& post.pending_apply_confirmation == pre.pending_apply_confirmation
    &&& match pre.inflight {
        None => post.output_lines == pre.output_lines && post.status_line == pre.status_line,
        Some(op) => match op.cancel_stage {
            CancelStage::NotRequested => post.output() == spec_push_all(
                pre.output(),
                seq![
                    "Graceful cancel requested. Sending SIGINT and waiting for Terraform to clean up state lock..."@,
                    "Press `c` again to force kill if absolutely necessary."@,
                ],
                OUTPUT_BUFFER_LIMIT as nat,
            ) && post.status_line@ == "cancelling (graceful)..."@,
            CancelStage::GracefulRequested => post.output() == spec_push_bounded(
                pre.output(),
                "Force kill requested. This may leave Terraform state locked."@,
                OUTPUT_BUFFER_LIMIT as nat,
            ) && post.status_line@ == "cancelling (forced)..."@,
            CancelStage::ForceRequested => post.output() == spec_push_bounded(
                pre.output(),
                "Force kill already requested. Waiting for process to exit..."@,
                OUTPUT_BUFFER_LIMIT as nat,
            ) && post.status_line == pre.status_line,
        },
    }
}

impl AppState {
    /// Advances the cancellation escalation of the inflight operation one
    /// step — none to graceful, graceful to forced — and reports the signal
    /// to push onto the cancellation channel, if any. Repeated requests at
    /// the forced stage push nothing and only log that the kill is already
    /// underway; with nothing inflight the request is a no-op. Escalation
    /// is driven entirely by these user requests, never by a timer.
    pub fn request_cancel(&mut self) -> (sig: Option<CancelSignal>)
        ensures
            rel_cancel(*old(self), *final(self), sig),
    {
        match self.inflight {
            None => None,
            Some(op) => {
                match op.cancel_stage {
                    CancelStage::NotRequested => {
                        self.inflight = Some(
                            InflightOperation {
                                kind: op.kind,
                                account_idx: op.account_idx,
                                cancel_stage: CancelStage::GracefulRequested,
                            },
                        );
                        self.push_output(
                            String::from_str(
                                "Graceful cancel requested. Sending SIGINT and waiting for Terraform to clean up state lock...",
                            ),
                        );
                        self.push_output(
                            String::from_str(
                                "Press `c` again to force kill if absolutely necessary.",
                            ),
                        );
                        self.set_status(String::from_str("cancelling (graceful)..."));
                        proof {
                            let l1 =
                                "Graceful cancel requested. Sending SIGINT and waiting for Terraform to clean up state lock..."@;
                            let l2 = "Press `c` again to force kill if absolutely necessary."@;
                            let both = seq![l1, l2];
                            assert(both.drop_last() =~= seq![l1]);
                            assert(both.last() == l2);
                            assert(seq![l1].drop_last() =~= Seq::<Seq<char>>::empty());
                            assert(seq![l1].last() == l1);
                            let out0 = old(self).output();
                            let cap = OUTPUT_BUFFER_LIMIT as nat;
                            assert(spec_push_all(out0, Seq::<Seq<char>>::empty(), cap) == out0);
                            assert(spec_push_all(out0, seq![l1], cap) == spec_push_bounded(
                                out0,
                                l1,
                                cap,
                            ));
                            assert(spec_push_all(out0, both, cap) == spec_push_bounded(
                                spec_push_all(out0, seq![l1], cap),
                                l2,
                                cap,
                            ));
                        }
                        Some(CancelSignal::Graceful)
                    },
                    CancelStage::GracefulRequested => {
                        self.inflight = Some(
                            InflightOperation {
                                kind: op.kind,
                                account_idx: op.account_idx,
                                cancel_stage: CancelStage::ForceRequested,
                            },
                        );
                        self.push_output(
                            String::from_str(
                                "Force kill requested. This may leave Terraform state locked.",
                            ),
                        );
                        self.set_status(String::from_str("cancelling (forced)..."));
                        Some(CancelSignal::Force)
                    },
                    CancelStage::ForceRequested => {
                        self.push_output(
                            String::from_str(
                                "Force kill already requested. Waiting for process to exit...",
                            ),
                        );
                        None
                    },
                }
            },
        }
    }
}

/// The account at one index with its authentication status replaced;
/// everything else agrees field for field.
pub open spec fn auth_updated(a: Account, b: Account, status: AuthStatus) -> bool {
    &&& b.name == a.name
    &&& b.aws_profile == a.aws_profile
    &&& b.region == a.region
    &&& b.composition_path == a.composition_path
    &&& b.composition_issue == a.composition_issue
    &&& b.var_files@ == a.var_files@
    &&& b.auth == status
    &&& b.workspaces@ == a.workspaces@
}

/// The account with its workspace list replaced by a sorted copy of the
/// loaded names; everything else agrees field for field.
pub open spec fn workspaces_updated(a: Account, b: Account, loaded: Seq<Seq<char>>) -> bool {
    &&& b.name == a.name
    &&& b.aws_profile == a.aws_profile
    &&& b.region == a.region
    &&& b.composition_path == a.composition_path
    &&& b.composition_issue == a.composition_issue
    &&& b.var_files@ == a.var_files@
    &&& b.auth == a.auth
    &&& b.workspaces@.len() == loaded.len()
    &&& crate::text::sorted_names(views_of(b.workspaces@))
    &&& views_of(b.workspaces@).to_multiset() == loaded.to_multiset()
}

/// What the log line summarising a loaded workspace list says.
pub open spec fn spec_workspaces_summary(count: nat, name: Seq<char>) -> Seq<char> {
    if count == 0 {
        "No workspaces found for `"@ + name + "`"@
    } else {
        "Loaded "@ + spec_udec(count) + " workspaces for `"@ + name + "`"@
    }
}

impl AppState {
    /// Applies one event from the channel to the state. The reconciler is
    /// the sole mutator of this state; it applies events in arrival order
    /// and tolerates any interleaving of their sources. An output line is
    /// appended under the buffer cap; an authentication update overwrites
    /// the named account's status unconditionally; a loaded workspace list
    /// is sorted before it is stored and resets the workspace selection
    /// only when the affected account is the selected one; a completion
    /// clears the pending apply confirmation, clears the inflight slot
    /// only when kind and account match it, and sets the status from the
    /// outcome flags, cancellation taking precedence over failure.
    pub fn handle_worker_event(&mut self, event: WorkerEvent)
        ensures
            match event {
                WorkerEvent::OutputLine(line) => final(self).output() == spec_push_bounded(
                    old(self).output(),
                    line@,
                    OUTPUT_BUFFER_LIMIT as nat,
                ) && unchanged_but_output(*old(self), *final(self)),
                WorkerEvent::AccountAuthUpdate { account_idx, status, message } => {
                    &&& final(self).output() == spec_push_bounded(
                        old(self).output(),
                        message@,
                        OUTPUT_BUFFER_LIMIT as nat,
                    )
                    &&& final(self).accounts@.len() == old(self).accounts@.len()
                    &&& if account_idx < old(self).accounts@.len() {
                        &&& auth_updated(
                            old(self).accounts@[account_idx as int],
                            final(self).accounts@[account_idx as int],
                            status,
                        )
                        &&& forall|k: int|
                            0 <= k < old(self).accounts@.len() && k != account_idx
                                ==> final(self).accounts@[k] == old(self).accounts@[k]
                    } else {
                        final(self).accounts == old(self).accounts
                    }
                    &&& final(self).selected_account == old(self).selected_account
                    &&& final(self).selected_workspace == old(self).selected_workspace
                    &&& final(self).focused_panel == old(self).focused_panel
                    &&& final(self).previous_focus_panel == old(self).previous_focus_panel
                    &&& final(self).layout_mode == old(self).layout_mode
                    &&& final(self).output_scroll_from_bottom == old(self).output_scroll_from_bottom
                    &&& final(self).status_line == old(self).status_line
                    &&& final(self).inflight == old(self).inflight
                    &&& final(self).pending_apply_confirmation == old(self).pending_apply_confirmation
                    &&& final(self).show_help == old(self).show_help
                    &&& final(self).quit_requested == old(self).quit_requested
                },
                WorkerEvent::WorkspacesLoaded { account_idx, workspaces } => {
                    &&& final(self).accounts@.len() == old(self).accounts@.len()
                    &&& if account_idx < old(self).accounts@.len() {
                        &&& workspaces_updated(
                            old(self).accounts@[account_idx as int],
                            final(self).accounts@[account_idx as int],
                            views_of(workspaces@),
                        )
                        &&& forall|k: int|
                            0 <= k < old(self).accounts@.len() && k != account_idx
                                ==> final(self).accounts@[k] == old(self).accounts@[k]
                        &&& final(self).output() == spec_push_bounded(
                            old(self).output(),
                            spec_workspaces_summary(
                                workspaces@.len() as nat,
                                old(self).accounts@[account_idx as int].name@,
                            ),
                            OUTPUT_BUFFER_LIMIT as nat,
                        )
                    } else {
                        final(self).accounts == old(self).accounts && final(self).output_lines
                            == old(self).output_lines
                    }
                    &&& final(self).selected_workspace == if account_idx == old(self).selected_account {
                        0
                    } else {
                        old(self).selected_workspace
                    }
                    &&& final(self).selected_account == old(self).selected_account
                    &&& final(self).focused_panel == old(self).focused_panel
                    &&& final(self).previous_focus_panel == old(self).previous_focus_panel
                    &&& final(self).layout_mode == old(self).layout_mode
                    &&& final(self).output_scroll_from_bottom == old(self).output_scroll_from_bottom
                    &&& final(self).status_line == old(self).status_line
                    &&& final(self).inflight == old(self).inflight
                    &&& final(self).pending_apply_confirmation == old(self).pending_apply_confirmation
                    &&& final(self).show_help == old(self).show_help
                    &&& final(self).quit_requested == old(self).quit_requested
                },
                WorkerEvent::OperationFinished { kind, account_idx, success, cancelled, message
                } => {
                    &&& final(self).output() == spec_push_bounded(
                        old(self).output(),
                        message@,
                        OUTPUT_BUFFER_LIMIT as nat,
                    )
                    &&& final(self).pending_apply_confirmation == false
                    &&& final(self).inflight == spec_clear_on_finish(
                        old(self).inflight,
                        kind,
                        account_idx,
                    )
                    &&& final(self).status_line@ == if cancelled {
                        "cancelled"@
                    } else if success {
                        "idle"@
                    } else {
                        "failed"@
                    }
                    &&& unchanged_core(*old(self), *final(self))
                },
            },
    {
        match event {
            WorkerEvent::OutputLine(line) => {
                self.push_output(line);
            },
            WorkerEvent::AccountAuthUpdate { account_idx, status, message } => {
                if account_idx < self.accounts.len() {
                    let mut updated = self.accounts[account_idx].duplicate();
                    updated.auth = status;
                    self.accounts.set(account_idx, updated);
                }
                self.push_output(message);
            },
            WorkerEvent::WorkspacesLoaded { account_idx, workspaces } => {
                let mut sorted = workspaces;
                sort_names(&mut sorted);
                if account_idx < self.accounts.len() {
                    let count = sorted.len();
                    let mut updated = self.accounts[account_idx].duplicate();
                    updated.workspaces = sorted;
                    let message = if count == 0 {
                        let mut m = String::from_str("No workspaces found for `");
                        m.append(updated.name.as_str());
                        m.append("`");
                        m
                    } else {
                        let mut m = String::from_str("Loaded ");
                        let rendered = u64_to_dec(count as u64);
                        m.append(rendered.as_str());
                        m.append(" workspaces for `");
                        m.append(updated.name.as_str());
                        m.append("`");
                        m
                    };
                    self.accounts.set(account_idx, updated);
                    self.push_output(message);
                }
                if account_idx == self.selected_account {
                    self.selected_workspace = 0;
                }
            },
            WorkerEvent::OperationFinished { kind, account_idx, success, cancelled, message } => {
                self.push_output(message);
                self.clear_apply_confirmation();
                let clear = match &self.inflight {
                    Some(inflight) => matches!(inflight.kind, k if k == kind)
                        && inflight.account_idx == account_idx,
                    None => false,
                };
                if clear {
                    self.inflight = None;
                }
                if cancelled {
                    self.set_status(String::from_str("cancelled"));
                } else if success {
                    self.set_status(String::from_str("idle"));
                } else {
                    self.set_status(String::from_str("failed"));
                }
            },
        }
    }
}


/// What the configuration loader hands over for one account: the
/// configured values, and the outcome of resolving the composition path
/// (done outside, where the filesystem and glob expansion live): the
/// resolved directory, or the resolver's error text.
#[derive(Debug)]
pub struct AccountInit {
    pub name: String,
    pub aws_profile: String,
    pub region: Option<String>,
    pub composition_path: String,
    pub resolution: Result<String, String>,
    pub var_files: Vec<String>,
}

/// The composition directory an account starts with: the resolved path,
/// or the fallback when resolution failed.
pub open spec fn init_resolved_path(init: AccountInit, base: Seq<char>) -> Seq<char> {
    match init.resolution {
        Ok(p) => p@,
        Err(_) => crate::account::spec_fallback_composition(base, init.composition_path@),
    }
}

/// The diagnostic recorded for an account whose composition path did not
/// resolve, or nothing.
pub open spec fn init_issue_text(init: AccountInit) -> Option<Seq<char>> {
    match init.resolution {
        Ok(_) => None,
        Err(e) => Some(
            "composition_path `"@ + init.composition_path@ + "` invalid: "@ + e@,
        ),
    }
}

/// The warning lines one account contributes to the startup log: none when
/// its composition path resolved, two otherwise.
pub open spec fn init_warn_lines(init: AccountInit, base: Seq<char>) -> Seq<Seq<char>> {
    match init.resolution {
        Ok(_) => Seq::empty(),
        Err(e) => seq![
            "warning: account `"@ + init.name@ + "` "@ + ("composition_path `"@
                + init.composition_path@ + "` invalid: "@ + e@),
            "warning: using fallback path `"@ + crate::account::spec_fallback_composition(
                base,
                init.composition_path@,
            ) + "` so UI can start; execution remains blocked until fixed"@,
        ],
    }
}

/// The whole startup log: the ready banner, then each account's warnings
/// in configuration order.
pub open spec fn spec_startup_lines(inits: Seq<AccountInit>, base: Seq<char>) -> Seq<Seq<char>>
    decreases inits.len(),
{
    if inits.len() == 0 {
        seq!["lazytf ready. Press `a` to authenticate selected account."@]
    } else {
        spec_startup_lines(inits.drop_last(), base) + init_warn_lines(inits.last(), base)
    }
}

/// The account built from one configuration entry: paths resolved, the
/// diagnostic recorded when resolution failed, authentication unknown and
/// no workspaces yet.
pub open spec fn account_from_init(a: Account, init: AccountInit, base: Seq<char>) -> bool {
    &&& a.name == init.name
    &&& a.aws_profile == init.aws_profile
    &&& a.region == init.region
    &&& a.composition_path@ == init_resolved_path(init, base)
    &&& match (a.composition_issue, init_issue_text(init)) {
        (Some(s), Some(t)) => s@ == t,
        (None, None) => true,
        _ => false,
    }
    &&& views_of(a.var_files@) == crate::account::spec_resolved_var_files(
        views_of(init.var_files@),
        init_resolved_path(init, base),
    )
    &&& a.auth == AuthStatus::Unknown
    &&& a.workspaces@.len() == 0
}

impl AppState {
    /// Builds the starting state from the loaded configuration: one
    /// account per entry, in the order given, the startup log with one
    /// warning pair per unresolved composition path, the first account
    /// selected, the split layout, and an idle status. A configuration
    /// without accounts is rejected.
    pub fn from_config(inits: Vec<AccountInit>, config_base_dir: &str) -> (r: Result<
        AppState,
        String,
    >)
        ensures
            match r {
                Err(e) => inits@.len() == 0 && e@
                    == "Config has no accounts. Add at least one account under `accounts:`"@,
                Ok(st) => {
                    &&& inits@.len() != 0
                    &&& st.accounts@.len() == inits@.len()
                    &&& forall|k: int|
                        0 <= k < inits@.len() ==> account_from_init(
                            #[trigger] st.accounts@[k],
                            inits@[k],
                            config_base_dir@,
                        )
                    &&& st.output() == spec_startup_lines(inits@, config_base_dir@)
                    &&& st.selected_account == 0
                    &&& st.selected_workspace == 0
                    &&& st.focused_panel == FocusPanel::Accounts
                    &&& st.previous_focus_panel == FocusPanel::Accounts
                    &&& st.layout_mode == LayoutMode::Split
                    &&& st.output_scroll_from_bottom == 0
                    &&& st.status_line@ == "idle"@
                    &&& st.inflight is None
                    &&& st.pending_apply_confirmation == false
                    &&& st.show_help == false
                    &&& st.quit_requested == false
                },
            },
    {
        if inits.len() == 0 {
            return Err(
                String::from_str("Config has no accounts. Add at least one account under `accounts:`"),
            );
        }
        let mut accounts: Vec<Account> = Vec::new();
        let mut startup_lines: Vec<String> = Vec::new();
        startup_lines.push(
            String::from_str("lazytf ready. Press `a` to authenticate selected account."),
        );
        proof {
            assert(inits@.take(0) =~= Seq::<AccountInit>::empty());
            assert(views_of(startup_lines@) =~= spec_startup_lines(
                inits@.take(0),
                config_base_dir@,
            ));
        }
        let mut i: usize = 0;
        while i < inits.len()
            invariant
                i <= inits@.len(),
                accounts@.len() == i,
                forall|k: int|
                    0 <= k < i ==> account_from_init(
                        #[trigger] accounts@[k],
                        inits@[k],
                        config_base_dir@,
                    ),
                views_of(startup_lines@) == spec_startup_lines(
                    inits@.take(i as int),
                    config_base_dir@,
                ),
            decreases inits@.len() - i,
        {
            let ghost lines_in = startup_lines@;
            let init = &inits[i];
            let mut composition_path: String;
            let mut composition_issue: Option<String>;
            match &init.resolution {
                Ok(p) => {
                    composition_path = p.clone();
                    composition_issue = None;
                },
                Err(err) => {
                    let fallback = crate::account::fallback_composition_path(
                        config_base_dir,
                        init.composition_path.as_str(),
                    );
                    let mut issue = String::from_str("composition_path `");
                    issue.append(init.composition_path.as_str());
                    issue.append("` invalid: ");
                    issue.append(err.as_str());
                    let mut warn1 = String::from_str("warning: account `");
                    warn1.append(init.name.as_str());
                    warn1.append("` ");
                    warn1.append(issue.as_str());
                    startup_lines.push(warn1);
                    let mut warn2 = String::from_str("warning: using fallback path `");
                    warn2.append(fallback.as_str());
                    warn2.append(
                        "` so UI can start; execution remains blocked until fixed",
                    );
                    startup_lines.push(warn2);
                    composition_path = fallback;
                    composition_issue = Some(issue);
                },
            }
            let var_files = crate::account::resolve_var_file_paths(
                &init.var_files,
                composition_path.as_str(),
            );
            accounts.push(
                Account {
                    name: init.name.clone(),
                    aws_profile: init.aws_profile.clone(),
                    region: crate::account::clone_opt_string(&init.region),
                    composition_path,
                    composition_issue,
                    var_files,
                    auth: AuthStatus::Unknown,
                    workspaces: Vec::new(),
                },
            );
            proof {
                assert(inits@.take(i + 1).drop_last() =~= inits@.take(i as int));
                assert(inits@.take(i + 1).last() == inits@[i as int]);
                assert(views_of(startup_lines@) =~= views_of(lines_in) + init_warn_lines(
                    inits@[i as int],
                    config_base_dir@,
                ));
                assert(views_of(startup_lines@) =~= spec_startup_lines(
                    inits@.take(i + 1),
                    config_base_dir@,
                ));
            }
            i = i + 1;
        }
        proof {
            assert(inits@.take(inits@.len() as int) =~= inits@);
        }
        Ok(
            AppState {
                accounts,
                selected_account: 0,
                selected_workspace: 0,
                focused_panel: FocusPanel::Accounts,
                previous_focus_panel: FocusPanel::Accounts,
                layout_mode: LayoutMode::Split,
                output_lines: startup_lines,
                output_scroll_from_bottom: 0,
                status_line: String::from_str("idle"),
                inflight: None,
                pending_apply_confirmation: false,
                show_help: false,
                quit_requested: false,
            },
        )
    }
}


/// What the caller must spawn when a start request is granted: the
/// operation, the account it targets (a copy, so the account list stays
/// free to change), and the workspace it acts on, when it needs one.
#[derive(Debug)]
pub struct OperationLaunch {
    pub kind: OperationKind,
    pub account_idx: usize,
    pub account: Account,
    pub workspace: Option<String>,
}

/// What the caller must spawn for a read-only credential probe; probes run
/// outside the single-flight restriction.
#[derive(Debug)]
pub struct ProbeLaunch {
    pub account_idx: usize,
    pub account: Account,
}

/// The whole transition of starting a credential probe: the selected
/// account is marked as being checked and a copy of it, as it stood
/// before the mark, is handed back for probing; without a selected
/// account nothing happens.
pub open spec fn rel_probe_start(pre: AppState, post: AppState, r: Option<ProbeLaunch>) -> bool {
    if pre.selected_account < pre.accounts@.len() {
        &&& r matches Some(l) && l.account_idx == pre.selected_account
            && crate::account::same_account(
            l.account,
            pre.accounts@[pre.selected_account as int],
        )
        &&& post.accounts@.len() == pre.accounts@.len()
        &&& auth_updated(
            pre.accounts@[pre.selected_account as int],
            post.accounts@[pre.selected_account as int],
            AuthStatus::Checking,
        )
        &&& forall|k: int|
            0 <= k < pre.accounts@.len() && k != pre.selected_account ==> post.accounts@[k]
                == pre.accounts@[k]
        &&& post.output_lines == pre.output_lines
        &&& post.status_line == pre.status_line
        &&& post.inflight == pre.inflight
        &&& post.pending_apply_confirmation == pre.pending_apply_confirmation
        &&& post.selected_account == pre.selected_account
        &&& post.selected_workspace == pre.selected_workspace
        &&& post.focused_panel == pre.focused_panel
        &&& post.previous_focus_panel == pre.previous_focus_panel
        &&& post.layout_mode == pre.layout_mode
        &&& post.output_scroll_from_bottom == pre.output_scroll_from_bottom
        &&& post.show_help == pre.show_help
        &&& post.quit_requested == pre.quit_requested
    } else {
        r is None && post == pre
    }
}

/// The request was rejected: one line explains it in the log and nothing
/// else changes.
pub open spec fn rel_rejected(pre: AppState, post: AppState, line: Seq<char>) -> bool {
    &&& post.output() == spec_push_bounded(pre.output(), line, OUTPUT_BUFFER_LIMIT as nat)
    &&& unchanged_but_output(pre, post)
}

/// The request failed a preflight check: one line explains it, the status
/// shows the failure, and nothing else changes.
pub open spec fn rel_rejected_failed(pre: AppState, post: AppState, line: Seq<char>) -> bool {
    &&& post.output() == spec_push_bounded(pre.output(), line, OUTPUT_BUFFER_LIMIT as nat)
    &&& post.status_line@ == "failed"@
    &&& post.inflight == pre.inflight
    &&& post.pending_apply_confirmation == pre.pending_apply_confirmation
    &&& unchanged_core(pre, post)
}

/// The request was granted: the inflight slot now holds the new operation
/// for the selected account, with its escalation at the start, the status
/// names it, and nothing else changes.
pub open spec fn rel_started(
    pre: AppState,
    post: AppState,
    kind: OperationKind,
    status: Seq<char>,
) -> bool {
    &&& pre.selected_account < pre.accounts@.len()
    &&& post.inflight == spec_try_begin(pre.inflight, kind, pre.selected_account).0
    &&& spec_try_begin(pre.inflight, kind, pre.selected_account).1
    &&& post.output_lines == pre.output_lines
    &&& post.status_line@ == status
    &&& post.pending_apply_confirmation == pre.pending_apply_confirmation
    &&& unchanged_core(pre, post)
}

/// The granted launch names the requested kind and carries a copy of the
/// selected account.
pub open spec fn launch_for(l: OperationLaunch, pre: AppState, kind: OperationKind) -> bool {
    &&& l.kind == kind
    &&& l.account_idx == pre.selected_account
    &&& pre.selected_account < pre.accounts@.len()
    &&& crate::account::same_account(l.account, pre.accounts@[pre.selected_account as int])
}

/// The whole transition of a login start request: refused while an
/// operation is inflight or without a selected account, granted otherwise.
pub open spec fn rel_start_login(pre: AppState, post: AppState, r: Option<
    OperationLaunch,
>) -> bool {
    if pre.spec_busy() {
        r is None && rel_rejected(pre, post, "Another operation is already running."@)
    } else if pre.selected_account >= pre.accounts@.len() {
        r is None && rel_rejected(pre, post, "No account selected."@)
    } else {
        &&& r matches Some(l) && launch_for(l, pre, OperationKind::AuthLogin) && l.workspace
            is None
        &&& rel_started(
            pre,
            post,
            OperationKind::AuthLogin,
            "running aws sso login for "@ + pre.accounts@[pre.selected_account as int].name@,
        )
    }
}

impl AppState {
    /// Requests the start of an interactive login for the selected
    /// account. Under the single-flight guarantee the request is refused
    /// whenever any operation is already inflight; on success the inflight
    /// slot is taken atomically with this check, before anything is
    /// spawned.
    pub fn start_auth_login(&mut self) -> (r: Option<OperationLaunch>)
        ensures
            rel_start_login(*old(self), *final(self), r),
    {
        if self.is_busy() {
            self.push_output(String::from_str("Another operation is already running."));
            return None;
        }
        if self.selected_account >= self.accounts.len() {
            self.push_output(String::from_str("No account selected."));
            return None;
        }
        let account_idx = self.selected_account;
        let account = self.accounts[account_idx].duplicate();
        self.inflight = Some(
            InflightOperation {
                kind: OperationKind::AuthLogin,
                account_idx,
                cancel_stage: CancelStage::NotRequested,
            },
        );
        let mut status = String::from_str("running aws sso login for ");
        status.append(account.name.as_str());
        self.set_status(status);
        Some(
            OperationLaunch {
                kind: OperationKind::AuthLogin,
                account_idx,
                account,
                workspace: None,
            },
        )
    }
}

/// The whole transition of a workspace-refresh start request: refused
/// while busy, without a selected account, for an unauthenticated account
/// or on a failed composition check; granted otherwise.
pub open spec fn rel_start_refresh(
    pre: AppState,
    post: AppState,
    probe: FsProbe,
    r: Option<OperationLaunch>,
) -> bool {
    if pre.spec_busy() {
        r is None && rel_rejected(pre, post, "Another operation is already running."@)
    } else if pre.selected_account >= pre.accounts@.len() {
        r is None && rel_rejected(pre, post, "No account selected."@)
    } else {
        let account = pre.accounts@[pre.selected_account as int];
        if account.auth != AuthStatus::Authenticated {
            r is None && rel_rejected(
                pre,
                post,
                "Selected account is not authenticated. Press `a` to run AWS SSO login."@,
            )
        } else {
            match crate::preflight::spec_composition_check(
                account,
                probe.composition_exists,
                probe.composition_is_dir,
            ) {
                Some(issue) => r is None && rel_rejected_failed(
                    pre,
                    post,
                    "Cannot refresh workspaces for `"@ + account.name@ + "`: "@
                        + crate::preflight::spec_issue_message(issue, account.name@),
                ),
                None => {
                    &&& r matches Some(l) && launch_for(
                        l,
                        pre,
                        OperationKind::RefreshWorkspaces,
                    ) && l.workspace is None
                    &&& rel_started(
                        pre,
                        post,
                        OperationKind::RefreshWorkspaces,
                        "loading workspaces for "@ + account.name@,
                    )
                },
            }
        }
    }
}

impl AppState {
    /// Requests a workspace refresh for the selected account, under the
    /// single-flight guarantee and behind the authentication and
    /// composition checks; `probe` carries the filesystem facts the
    /// checks need.
    pub fn start_workspace_refresh(&mut self, probe: &FsProbe) -> (r: Option<OperationLaunch>)
        requires
            old(self).selected_account < old(self).accounts@.len() ==> probe.describes(
                old(self).accounts@[old(self).selected_account as int],
            ),
        ensures
            rel_start_refresh(*old(self), *final(self), *probe, r),
    {
        if self.is_busy() {
            self.push_output(String::from_str("Another operation is already running."));
            return None;
        }
        if self.selected_account >= self.accounts.len() {
            self.push_output(String::from_str("No account selected."));
            return None;
        }
        let account_idx = self.selected_account;
        let account = self.accounts[account_idx].duplicate();
        if !matches!(account.auth, AuthStatus::Authenticated) {
            self.push_output(
                String::from_str(
                    "Selected account is not authenticated. Press `a` to run AWS SSO login.",
                ),
            );
            return None;
        }
        match crate::preflight::validate_composition_for_execution(
            &account,
            probe.composition_exists,
            probe.composition_is_dir,
        ) {
            Err(e) => {
                let rendered = e.message(account.name.as_str());
                let mut line = String::from_str("Cannot refresh workspaces for `");
                line.append(account.name.as_str());
                line.append("`: ");
                line.append(rendered.as_str());
                self.push_output(line);
                self.set_status(String::from_str("failed"));
                proof {
                    crate::preflight::lemma_message_of_issue(
                        e,
                        crate::preflight::spec_composition_check(
                            old(self).accounts@[old(self).selected_account as int],
                            probe.composition_exists,
                            probe.composition_is_dir,
                        )->Some_0,
                        old(self).accounts@[old(self).selected_account as int].name@,
                    );
                }
                None
            },
            Ok(_) => {
                self.inflight = Some(
                    InflightOperation {
                        kind: OperationKind::RefreshWorkspaces,
                        account_idx,
                        cancel_stage: CancelStage::NotRequested,
                    },
                );
                let mut status = String::from_str("loading workspaces for ");
                status.append(account.name.as_str());
                self.set_status(status);
                Some(
                    OperationLaunch {
                        kind: OperationKind::RefreshWorkspaces,
                        account_idx,
                        account,
                        workspace: None,
                    },
                )
            },
        }
    }
}

/// The whole transition of a provisioning-operation start request:
/// refused while busy, without a selected account, for an unauthenticated
/// account, on a failed preflight, or — for an operation that acts on a
/// workspace — without a workspace selection; granted otherwise.
pub open spec fn rel_start_operation(
    pre: AppState,
    post: AppState,
    probe: FsProbe,
    kind: OperationKind,
    r: Option<OperationLaunch>,
) -> bool {
    if pre.spec_busy() {
        r is None && rel_rejected(pre, post, "Another operation is already running."@)
    } else if pre.selected_account >= pre.accounts@.len() {
        r is None && rel_rejected(pre, post, "No account selected."@)
    } else {
        let account = pre.accounts@[pre.selected_account as int];
        if account.auth != AuthStatus::Authenticated {
            r is None && rel_rejected(
                pre,
                post,
                "Selected account is not authenticated. Press `a` first."@,
            )
        } else {
            match crate::preflight::spec_preflight(
                account,
                kind,
                probe.composition_exists,
                probe.composition_is_dir,
                probe.var_files_present@,
            ) {
                Some(issue) => r is None && rel_rejected_failed(
                    pre,
                    post,
                    "Cannot run "@ + kind.spec_label() + ": "@
                        + crate::preflight::spec_issue_message(issue, account.name@),
                ),
                None => {
                    if kind.spec_requires_workspace() && pre.selected_workspace
                        >= account.workspaces@.len() {
                        r is None && rel_rejected(
                            pre,
                            post,
                            "No workspace selected. Press `r` to load workspaces first."@,
                        )
                    } else {
                        &&& (r matches Some(l) && launch_for(l, pre, kind) && (
                        if kind.spec_requires_workspace() {
                            l.workspace matches Some(w) && w@ == account.workspaces@[
                                pre.selected_workspace as int]@
                        } else {
                            l.workspace is None
                        }))
                        &&& rel_started(
                            pre,
                            post,
                            kind,
                            "running "@ + kind.spec_label() + " for "@ + account.name@,
                        )
                    }
                },
            }
        }
    }
}

impl AppState {
    /// Requests the start of one provisioning operation for the selected
    /// account, under the single-flight guarantee and behind the
    /// authentication, preflight and workspace-selection checks; `probe`
    /// carries the filesystem facts the preflight needs.
    pub fn start_terraform_operation(&mut self, probe: &FsProbe, kind: OperationKind) -> (r:
        Option<OperationLaunch>)
        requires
            old(self).selected_account < old(self).accounts@.len() ==> probe.describes(
                old(self).accounts@[old(self).selected_account as int],
            ),
        ensures
            rel_start_operation(*old(self), *final(self), *probe, kind, r),
    {
        if self.is_busy() {
            self.push_output(String::from_str("Another operation is already running."));
            return None;
        }
        if self.selected_account >= self.accounts.len() {
            self.push_output(String::from_str("No account selected."));
            return None;
        }
        let account_idx = self.selected_account;
        let account = self.accounts[account_idx].duplicate();
        if !matches!(account.auth, AuthStatus::Authenticated) {
            self.push_output(
                String::from_str("Selected account is not authenticated. Press `a` first."),
            );
            return None;
        }
        match crate::preflight::validate_operation_preflight(&account, kind, probe) {
            Err(e) => {
                let rendered = e.message(account.name.as_str());
                let mut line = String::from_str("Cannot run ");
                line.append(kind.label());
                line.append(": ");
                line.append(rendered.as_str());
                self.push_output(line);
                self.set_status(String::from_str("failed"));
                proof {
                    crate::preflight::lemma_message_of_issue(
                        e,
                        crate::preflight::spec_preflight(
                            old(self).accounts@[old(self).selected_account as int],
                            kind,
                            probe.composition_exists,
                            probe.composition_is_dir,
                            probe.var_files_present@,
                        )->Some_0,
                        old(self).accounts@[old(self).selected_account as int].name@,
                    );
                }
                None
            },
            Ok(_) => {
                let workspace: Option<String> = if kind.requires_workspace() {
                    match self.selected_workspace_name() {
                        Some(w) => Some(w),
                        None => {
                            self.push_output(
                                String::from_str(
                                    "No workspace selected. Press `r` to load workspaces first.",
                                ),
                            );
                            return None;
                        },
                    }
                } else {
                    None
                };
                self.inflight = Some(
                    InflightOperation { kind, account_idx, cancel_stage: CancelStage::NotRequested },
                );
                let mut status = String::from_str("running ");
                status.append(kind.label());
                status.append(" for ");
                status.append(account.name.as_str());
                self.set_status(status);
                Some(OperationLaunch { kind, account_idx, account, workspace })
            },
        }
    }

    /// Marks the selected account as being checked and hands back what to
    /// probe: a copy of the account as it stood before the mark. Probes
    /// run outside the single-flight restriction, so nothing here asks
    /// whether an operation is inflight.
    pub fn start_auth_check_for_selected(&mut self) -> (r: Option<ProbeLaunch>)
        ensures
            rel_probe_start(*old(self), *final(self), r),
    {
        if self.selected_account >= self.accounts.len() {
            return None;
        }
        let account_idx = self.selected_account;
        let account = self.accounts[account_idx].duplicate();
        let mut updated = self.accounts[account_idx].duplicate();
        updated.auth = AuthStatus::Checking;
        self.accounts.set(account_idx, updated);
        Some(ProbeLaunch { account_idx, account })
    }
}

} // verus!
