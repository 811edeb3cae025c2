//! Dispatch of user intent onto the application state. The mapping from
//! keys to intents lives outside; this module holds the rules: the help
//! overlay swallows most intents, quitting while busy first escalates
//! cancellation, start requests are refused while an operation is
//! inflight, and an apply must be confirmed as a second step.

use vstd::prelude::*;
use vstd::string::StringExecFns;
use crate::ops::CancelSignal;
use crate::ops::FocusPanel;
use crate::ops::OperationKind;
use crate::preflight::FsProbe;
use crate::state::AppState;
use crate::state::OperationLaunch;
use crate::state::ProbeLaunch;
use crate::state::OUTPUT_BUFFER_LIMIT;
use crate::state::rel_cancel;
use crate::state::rel_probe_start;
use crate::state::rel_rejected;
use crate::state::rel_start_login;
use crate::state::rel_start_operation;
use crate::state::rel_start_refresh;
use crate::state::spec_push_bounded;
use crate::state::unchanged_core;

verus! {

/// What the user asked for, already separated from the keys that carry
/// it.
#[derive(Clone, Copy, Debug, PartialEq, Eq, Structural)]
pub enum UserIntent {
    ToggleHelp,
    Escape,
    Quit,
    Cancel,
    ToggleOutputOnly,
    FocusNext,
    FocusPrevious,
    MoveUp,
    MoveDown,
    PageUp,
    PageDown,
    JumpTop,
    JumpBottom,
    MouseScrollUp,
    MouseScrollDown,
    StartLogin,
    StartAuthCheck,
    StartRefresh,
    StartInit,
    StartPlan,
    RequestApply,
    ConfirmApply,
    Other,
}

/// What the caller must do after one intent was applied: nothing, push a
/// cancellation signal, or spawn the granted work.
#[derive(Debug)]
pub enum UiAction {
    DoNothing,
    PushSignal(CancelSignal),
    SpawnProbe(ProbeLaunch),
    SpawnOperation(OperationLaunch),
}

/// The line logged when a start request arrives while an operation is
/// already inflight.
pub open spec fn busy_line() -> Seq<char> {
    "Another operation is already running. Press `c` to cancel."@
}

/// The pre-state with the pending apply confirmation withdrawn.
pub open spec fn cleared(pre: AppState) -> AppState {
    AppState { pending_apply_confirmation: false, ..pre }
}

/// The whole transition of a quit request: while an operation is
/// inflight, cancellation is escalated one step and quitting is deferred
/// to its completion; otherwise the state only records that quitting was
/// requested.
pub open spec fn rel_quit(pre: AppState, post: AppState, r: UiAction) -> bool {
    let marked = AppState { quit_requested: true, ..pre };
    if pre.spec_busy() {
        match r {
            UiAction::PushSignal(s) => rel_cancel(marked, post, Some(s)),
            UiAction::DoNothing => rel_cancel(marked, post, None),
            _ => false,
        }
    } else {
        post == marked && r is DoNothing
    }
}

/// The transition of one cancellation intent, with the signal carried in
/// the resulting action.
pub open spec fn rel_cancel_action(pre: AppState, post: AppState, r: UiAction) -> bool {
    match r {
        UiAction::PushSignal(s) => rel_cancel(pre, post, Some(s)),
        UiAction::DoNothing => rel_cancel(pre, post, None),
        _ => false,
    }
}

/// What applying one intent to the state does, in full. The help overlay,
/// when shown, lets only quitting, cancelling and closing through; mouse
/// scrolling works regardless.
pub open spec fn rel_intent(
    pre: AppState,
    post: AppState,
    probe: FsProbe,
    intent: UserIntent,
    r: UiAction,
) -> bool {
    match intent {
        UserIntent::ToggleHelp => post == (AppState {
            show_help: !pre.show_help,
            pending_apply_confirmation: false,
            ..pre
        }) && r is DoNothing,
        UserIntent::MouseScrollUp => post == (AppState {
            output_scroll_from_bottom: if pre.focused_panel == FocusPanel::Output {
                sat_add(pre.output_scroll_from_bottom, 3)
            } else {
                pre.output_scroll_from_bottom
            },
            ..pre
        }) && r is DoNothing,
        UserIntent::MouseScrollDown => post == (AppState {
            output_scroll_from_bottom: if pre.focused_panel == FocusPanel::Output {
                sat_sub(pre.output_scroll_from_bottom, 3)
            } else {
                pre.output_scroll_from_bottom
            },
            ..pre
        }) && r is DoNothing,
        UserIntent::Escape => if pre.show_help {
            post == (AppState { show_help: false, ..pre }) && r is DoNothing
        } else {
            post == (AppState {
                pending_apply_confirmation: false,
                ..(if pre.layout_mode == crate::ops::LayoutMode::Split {
                    pre
                } else {
                    AppState {
                        layout_mode: crate::ops::LayoutMode::Split,
                        focused_panel: pre.previous_focus_panel,
                        ..pre
                    }
                })
            }) && r is DoNothing
        },
        UserIntent::Quit => rel_quit(pre, post, r),
        UserIntent::Cancel => rel_cancel_action(pre, post, r),
        _ => if pre.show_help {
            post == pre && r is DoNothing
        } else {
            rel_main_intent(pre, post, probe, intent, r)
        },
    }
}

/// The intents that reach the main dispatch, outside the help overlay.
pub open spec fn rel_main_intent(
    pre: AppState,
    post: AppState,
    probe: FsProbe,
    intent: UserIntent,
    r: UiAction,
) -> bool {
    match intent {
        UserIntent::ToggleOutputOnly => post == (AppState {
            pending_apply_confirmation: false,
            ..(if pre.spec_output_only() {
                AppState {
                    layout_mode: crate::ops::LayoutMode::Split,
                    focused_panel: pre.previous_focus_panel,
                    ..pre
                }
            } else {
                AppState {
                    layout_mode: crate::ops::LayoutMode::OutputOnly,
                    focused_panel: FocusPanel::Output,
                    previous_focus_panel: pre.focused_panel,
                    ..pre
                }
            })
        }) && r is DoNothing,
        UserIntent::FocusNext => post == (AppState {
            focused_panel: if pre.spec_output_only() {
                pre.focused_panel
            } else {
                pre.focused_panel.spec_next()
            },
            ..pre
        }) && r is DoNothing,
        UserIntent::FocusPrevious => post == (AppState {
            focused_panel: if pre.spec_output_only() {
                pre.focused_panel
            } else {
                pre.focused_panel.spec_previous()
            },
            ..pre
        }) && r is DoNothing,
        UserIntent::MoveUp => post == (AppState {
            pending_apply_confirmation: false,
            ..spec_moved_up(pre)
        }) && r is DoNothing,
        UserIntent::MoveDown => post == (AppState {
            pending_apply_confirmation: false,
            ..spec_moved_down(pre)
        }) && r is DoNothing,
        UserIntent::PageUp => post == (AppState {
            pending_apply_confirmation: false,
            output_scroll_from_bottom: if pre.focused_panel == FocusPanel::Output {
                sat_add(pre.output_scroll_from_bottom, 10)
            } else {
                pre.output_scroll_from_bottom
            },
            ..pre
        }) && r is DoNothing,
        UserIntent::PageDown => post == (AppState {
            pending_apply_confirmation: false,
            output_scroll_from_bottom: if pre.focused_panel == FocusPanel::Output {
                sat_sub(pre.output_scroll_from_bottom, 10)
            } else {
                pre.output_scroll_from_bottom
            },
            ..pre
        }) && r is DoNothing,
        UserIntent::JumpTop => post == (AppState {
            pending_apply_confirmation: false,
            output_scroll_from_bottom: if pre.focused_panel == FocusPanel::Output {
                usize::MAX as usize
            } else {
                pre.output_scroll_from_bottom
            },
            ..pre
        }) && r is DoNothing,
        UserIntent::JumpBottom => post == (AppState {
            pending_apply_confirmation: false,
            output_scroll_from_bottom: if pre.focused_panel == FocusPanel::Output {
                0
            } else {
                pre.output_scroll_from_bottom
            },
            ..pre
        }) && r is DoNothing,
        UserIntent::StartLogin => if pre.spec_busy() {
            rel_rejected(pre, post, busy_line()) && r is DoNothing
        } else {
            match r {
                UiAction::SpawnOperation(l) => rel_start_login(cleared(pre), post, Some(l)),
                UiAction::DoNothing => rel_start_login(cleared(pre), post, None),
                _ => false,
            }
        },
        UserIntent::StartAuthCheck => if pre.spec_busy() {
            rel_rejected(pre, post, busy_line()) && r is DoNothing
        } else {
            match r {
                UiAction::SpawnProbe(l) => rel_probe_start(cleared(pre), post, Some(l)),
                UiAction::DoNothing => rel_probe_start(cleared(pre), post, None),
                _ => false,
            }
        },
        UserIntent::StartRefresh => if pre.spec_busy() {
            rel_rejected(pre, post, busy_line()) && r is DoNothing
        } else {
            match r {
                UiAction::SpawnOperation(l) => rel_start_refresh(cleared(pre), post, probe, Some(l)),
                UiAction::DoNothing => rel_start_refresh(cleared(pre), post, probe, None),
                _ => false,
            }
        },
        UserIntent::StartInit => rel_start_kind(pre, post, probe, OperationKind::TerraformInit, r),
        UserIntent::StartPlan => rel_start_kind(pre, post, probe, OperationKind::TerraformPlan, r),
        UserIntent::RequestApply => if pre.spec_busy() {
            rel_rejected(pre, post, busy_line()) && r is DoNothing
        } else {
            &&& post.pending_apply_confirmation == true
            &&& post.status_line@ == "apply confirmation pending: press y to confirm"@
            &&& post.output() == spec_push_bounded(
                pre.output(),
                "Apply requested. Press `y` to confirm apply, any nav key to cancel."@,
                OUTPUT_BUFFER_LIMIT as nat,
            )
            &&& post.inflight == pre.inflight
            &&& unchanged_core(pre, post)
            &&& r is DoNothing
        },
        UserIntent::ConfirmApply => if pre.pending_apply_confirmation {
            if pre.spec_busy() {
                rel_rejected(pre, post, busy_line()) && r is DoNothing
            } else {
                match r {
                    UiAction::SpawnOperation(l) => rel_start_operation(
                        pre,
                        post,
                        probe,
                        OperationKind::TerraformApply,
                        Some(l),
                    ),
                    UiAction::DoNothing => rel_start_operation(
                        pre,
                        post,
                        probe,
                        OperationKind::TerraformApply,
                        None,
                    ),
                    _ => false,
                }
            }
        } else {
            post == cleared(pre) && r is DoNothing
        },
        _ => post == cleared(pre) && r is DoNothing,
    }
}

/// A provisioning-operation start intent: refused with a log line while
/// busy, otherwise the pending confirmation is withdrawn and the start
/// request decides.
pub open spec fn rel_start_kind(
    pre: AppState,
    post: AppState,
    probe: FsProbe,
    kind: OperationKind,
    r: UiAction,
) -> bool {
    if pre.spec_busy() {
        rel_rejected(pre, post, busy_line()) && r is DoNothing
    } else {
        match r {
            UiAction::SpawnOperation(l) => rel_start_operation(
                cleared(pre),
                post,
                probe,
                kind,
                Some(l),
            ),
            UiAction::DoNothing => rel_start_operation(cleared(pre), post, probe, kind, None),
            _ => false,
        }
    }
}

/// Where moving the selection up lands: one entry up in the focused list,
/// or one line up in the output log.
pub open spec fn spec_moved_up(pre: AppState) -> AppState {
    match pre.focused_panel {
        FocusPanel::Accounts => if pre.selected_account > 0 {
            AppState {
                selected_account: (pre.selected_account - 1) as usize,
                selected_workspace: 0,
                ..pre
            }
        } else {
            pre
        },
        FocusPanel::Workspaces => if pre.selected_workspace > 0 {
            AppState { selected_workspace: (pre.selected_workspace - 1) as usize, ..pre }
        } else {
            pre
        },
        FocusPanel::Output => AppState {
            output_scroll_from_bottom: sat_add(pre.output_scroll_from_bottom, 1),
            ..pre
        },
    }
}

/// Where moving the selection down lands: one entry down in the focused
/// list, or one line down in the output log.
pub open spec fn spec_moved_down(pre: AppState) -> AppState {
    match pre.focused_panel {
        FocusPanel::Accounts => if pre.selected_account + 1 < pre.accounts@.len() {
            AppState {
                selected_account: (pre.selected_account + 1) as usize,
                selected_workspace: 0,
                ..pre
            }
        } else {
            pre
        },
        FocusPanel::Workspaces => if pre.selected_account < pre.accounts@.len()
            && pre.selected_workspace + 1 < pre.accounts@[
            pre.selected_account as int].workspaces@.len() {
            AppState { selected_workspace: (pre.selected_workspace + 1) as usize, ..pre }
        } else {
            pre
        },
        FocusPanel::Output => AppState {
            output_scroll_from_bottom: sat_sub(pre.output_scroll_from_bottom, 1),
            ..pre
        },
    }
}

/// Addition stopped at the greatest representable value.
pub open spec fn sat_add(x: usize, d: usize) -> usize {
    if x + d <= usize::MAX {
        (x + d) as usize
    } else {
        usize::MAX as usize
    }
}

/// Subtraction stopped at zero.
pub open spec fn sat_sub(x: usize, d: usize) -> usize {
    if x >= d {
        (x - d) as usize
    } else {
        0
    }
}

/// Adds without overflowing, stopping at the greatest value.
fn sat_add_exec(x: usize, d: usize) -> (r: usize)
    ensures
        r == sat_add(x, d),
{
    if x <= usize::MAX - d {
        x + d
    } else {
        usize::MAX
    }
}

/// Subtracts without underflowing, stopping at zero.
fn sat_sub_exec(x: usize, d: usize) -> (r: usize)
    ensures
        r == sat_sub(x, d),
{
    if x >= d {
        x - d
    } else {
        0
    }
}

impl AppState {
    /// Applies one user intent to the state and reports what the caller
    /// must do for it. See `rel_intent` for the full transition.
    pub fn handle_intent(&mut self, intent: UserIntent, probe: &FsProbe) -> (r: UiAction)
        requires
            old(self).selected_account < old(self).accounts@.len() ==> probe.describes(
                old(self).accounts@[old(self).selected_account as int],
            ),
        ensures
            rel_intent(*old(self), *final(self), *probe, intent, r),
    {
        match intent {
            UserIntent::ToggleHelp => {
                self.toggle_help();
                self.clear_apply_confirmation();
                return UiAction::DoNothing;
            },
            UserIntent::MouseScrollUp => {
                if matches!(self.focused_panel, FocusPanel::Output) {
                    self.output_scroll_from_bottom = sat_add_exec(
                        self.output_scroll_from_bottom,
                        3,
                    );
                }
                return UiAction::DoNothing;
            },
            UserIntent::MouseScrollDown => {
                if matches!(self.focused_panel, FocusPanel::Output) {
                    self.output_scroll_from_bottom = sat_sub_exec(
                        self.output_scroll_from_bottom,
                        3,
                    );
                }
                return UiAction::DoNothing;
            },
            _ => {},
        }
        if self.show_help {
            match intent {
                UserIntent::Escape => {
                    self.close_help();
                    return UiAction::DoNothing;
                },
                UserIntent::Quit => {
                    return self.quit_intent();
                },
                UserIntent::Cancel => {
                    return self.cancel_intent();
                },
                _ => {
                    return UiAction::DoNothing;
                },
            }
        }
        match intent {
            UserIntent::Escape => {
                self.exit_output_only();
                self.clear_apply_confirmation();
                UiAction::DoNothing
            },
            UserIntent::Quit => self.quit_intent(),
            UserIntent::Cancel => self.cancel_intent(),
            UserIntent::ToggleOutputOnly => {
                self.toggle_output_only();
                self.clear_apply_confirmation();
                UiAction::DoNothing
            },
            UserIntent::FocusNext => {
                if !self.is_output_only() {
                    self.focused_panel = self.focused_panel.next();
                }
                UiAction::DoNothing
            },
            UserIntent::FocusPrevious => {
                if !self.is_output_only() {
                    self.focused_panel = self.focused_panel.previous();
                }
                UiAction::DoNothing
            },
            UserIntent::MoveUp => {
                self.move_selection_up();
                self.clear_apply_confirmation();
                UiAction::DoNothing
            },
            UserIntent::MoveDown => {
                self.move_selection_down();
                self.clear_apply_confirmation();
                UiAction::DoNothing
            },
            UserIntent::PageUp => {
                if matches!(self.focused_panel, FocusPanel::Output) {
                    self.output_scroll_from_bottom = sat_add_exec(
                        self.output_scroll_from_bottom,
                        10,
                    );
                }
                self.clear_apply_confirmation();
                UiAction::DoNothing
            },
            UserIntent::PageDown => {
                if matches!(self.focused_panel, FocusPanel::Output) {
                    self.output_scroll_from_bottom = sat_sub_exec(
                        self.output_scroll_from_bottom,
                        10,
                    );
                }
                self.clear_apply_confirmation();
                UiAction::DoNothing
            },
            UserIntent::JumpTop => {
                if matches!(self.focused_panel, FocusPanel::Output) {
                    self.output_scroll_from_bottom = usize::MAX;
                }
                self.clear_apply_confirmation();
                UiAction::DoNothing
            },
            UserIntent::JumpBottom => {
                if matches!(self.focused_panel, FocusPanel::Output) {
                    self.output_scroll_from_bottom = 0;
                }
                self.clear_apply_confirmation();
                UiAction::DoNothing
            },
            UserIntent::StartLogin => {
                if self.is_busy() {
                    self.push_output(
                        String::from_str(
                            "Another operation is already running. Press `c` to cancel.",
                        ),
                    );
                    return UiAction::DoNothing;
                }
                self.clear_apply_confirmation();
                match self.start_auth_login() {
                    Some(l) => UiAction::SpawnOperation(l),
                    None => UiAction::DoNothing,
                }
            },
            UserIntent::StartAuthCheck => {
                if self.is_busy() {
                    self.push_output(
                        String::from_str(
                            "Another operation is already running. Press `c` to cancel.",
                        ),
                    );
                    return UiAction::DoNothing;
                }
                self.clear_apply_confirmation();
                match self.start_auth_check_for_selected() {
                    Some(l) => UiAction::SpawnProbe(l),
                    None => UiAction::DoNothing,
                }
            },
            UserIntent::StartRefresh => {
                if self.is_busy() {
                    self.push_output(
                        String::from_str(
                            "Another operation is already running. Press `c` to cancel.",
                        ),
                    );
                    return UiAction::DoNothing;
                }
                self.clear_apply_confirmation();
                match self.start_workspace_refresh(probe) {
                    Some(l) => UiAction::SpawnOperation(l),
                    None => UiAction::DoNothing,
                }
            },
            UserIntent::StartInit => self.start_kind_intent(probe, OperationKind::TerraformInit),
            UserIntent::StartPlan => self.start_kind_intent(probe, OperationKind::TerraformPlan),
            UserIntent::RequestApply => {
                if self.is_busy() {
                    self.push_output(
                        String::from_str(
                            "Another operation is already running. Press `c` to cancel.",
                        ),
                    );
                    return UiAction::DoNothing;
                }
                self.pending_apply_confirmation = true;
                self.set_status(String::from_str("apply confirmation pending: press y to confirm"));
                self.push_output(
                    String::from_str(
                        "Apply requested. Press `y` to confirm apply, any nav key to cancel.",
                    ),
                );
                UiAction::DoNothing
            },
            UserIntent::ConfirmApply => {
                if self.pending_apply_confirmation {
                    if self.is_busy() {
                        self.push_output(
                            String::from_str(
                                "Another operation is already running. Press `c` to cancel.",
                            ),
                        );
                        return UiAction::DoNothing;
                    }
                    match self.start_terraform_operation(probe, OperationKind::TerraformApply) {
                        Some(l) => UiAction::SpawnOperation(l),
                        None => UiAction::DoNothing,
                    }
                } else {
                    self.clear_apply_confirmation();
                    UiAction::DoNothing
                }
            },
            _ => {
                self.clear_apply_confirmation();
                UiAction::DoNothing
            },
        }
    }

    /// One provisioning-operation start intent.
    fn start_kind_intent(&mut self, probe: &FsProbe, kind: OperationKind) -> (r: UiAction)
        requires
            old(self).selected_account < old(self).accounts@.len() ==> probe.describes(
                old(self).accounts@[old(self).selected_account as int],
            ),
        ensures
            rel_start_kind(*old(self), *final(self), *probe, kind, r),
    {
        if self.is_busy() {
            self.push_output(
                String::from_str("Another operation is already running. Press `c` to cancel."),
            );
            return UiAction::DoNothing;
        }
        self.clear_apply_confirmation();
        match self.start_terraform_operation(probe, kind) {
            Some(l) => UiAction::SpawnOperation(l),
            None => UiAction::DoNothing,
        }
    }

    /// A quit request: while busy, escalates cancellation one step and
    /// defers quitting to the operation's completion; otherwise records
    /// that quitting was requested.
    pub fn quit_intent(&mut self) -> (r: UiAction)
        ensures
            rel_quit(*old(self), *final(self), r),
    {
        self.quit_requested = true;
        if self.is_busy() {
            match self.request_cancel() {
                Some(s) => UiAction::PushSignal(s),
                None => UiAction::DoNothing,
            }
        } else {
            UiAction::DoNothing
        }
    }

    /// One cancellation intent, with the signal to push carried in the
    /// action.
    pub fn cancel_intent(&mut self) -> (r: UiAction)
        ensures
            rel_cancel_action(*old(self), *final(self), r),
    {
        match self.request_cancel() {
            Some(s) => UiAction::PushSignal(s),
            None => UiAction::DoNothing,
        }
    }

    /// The loop may stop: quitting was requested and nothing is inflight
    /// any more.
    pub fn should_exit(&self) -> (r: bool)
        ensures
            r == (self.quit_requested && !self.spec_busy()),
    {
        self.quit_requested && !self.is_busy()
    }
}

} // verus!
