//! Behaviour of the supervisor, reconciler and runner on concrete
//! scenarios: single flight, escalation, the buffer bound, stale
//! completions, and a full run from configuration to a finished plan.

use lazytf::account::Account;
use lazytf::events::WorkerEvent;
use lazytf::ops::AuthStatus;
use lazytf::ops::CancelSignal;
use lazytf::ops::CancelStage;
use lazytf::ops::FocusPanel;
use lazytf::ops::LayoutMode;
use lazytf::ops::OperationKind;
use lazytf::preflight::FsProbe;
use lazytf::runner::RunnerAction;
use lazytf::runner::RunnerState;
use lazytf::state::AppState;
use lazytf::state::OUTPUT_BUFFER_LIMIT;

fn test_account(name: &str) -> Account {
    Account {
        name: name.to_string(),
        aws_profile: format!("{name}-profile"),
        region: Some("eu-west-1".to_string()),
        composition_path: format!("/compositions/{name}"),
        composition_issue: None,
        var_files: Vec::new(),
        auth: AuthStatus::Authenticated,
        workspaces: vec!["dev".to_string(), "prod".to_string()],
    }
}

fn test_state() -> AppState {
    AppState {
        accounts: vec![test_account("alpha"), test_account("beta")],
        selected_account: 0,
        selected_workspace: 0,
        focused_panel: FocusPanel::Accounts,
        previous_focus_panel: FocusPanel::Accounts,
        layout_mode: LayoutMode::Split,
        output_lines: Vec::new(),
        output_scroll_from_bottom: 0,
        status_line: "idle".to_string(),
        inflight: None,
        pending_apply_confirmation: false,
        show_help: false,
        quit_requested: false,
    }
}

fn all_good_probe() -> FsProbe {
    FsProbe { composition_exists: true, composition_is_dir: true, var_files_present: Vec::new() }
}

#[test]
fn single_flight_rejects_while_inflight() {
    let mut app = test_state();
    let probe = all_good_probe();
    let launch = app.start_terraform_operation(&probe, OperationKind::TerraformInit);
    assert!(launch.is_some());
    assert!(app.is_busy());

    // Every further start request is refused and logged, whatever it asks.
    assert!(app.start_auth_login().is_none());
    assert!(app.start_workspace_refresh(&probe).is_none());
    assert!(app.start_terraform_operation(&probe, OperationKind::TerraformPlan).is_none());
    let inflight = app.inflight.unwrap();
    assert_eq!(inflight.kind, OperationKind::TerraformInit);
    assert_eq!(inflight.account_idx, 0);
    assert_eq!(
        app.output_lines.last().map(String::as_str),
        Some("Another operation is already running.")
    );

    // A matching completion frees the slot; the next request is granted.
    app.handle_worker_event(WorkerEvent::OperationFinished {
        kind: OperationKind::TerraformInit,
        account_idx: 0,
        success: true,
        cancelled: false,
        message: "terraform init succeeded for `alpha`".to_string(),
    });
    assert!(!app.is_busy());
    assert_eq!(app.status_line, "idle");
    assert!(app.start_terraform_operation(&probe, OperationKind::TerraformPlan).is_some());
}

#[test]
fn escalation_advances_one_step_per_request() {
    let mut app = test_state();
    let probe = all_good_probe();
    app.start_terraform_operation(&probe, OperationKind::TerraformApply);

    assert_eq!(app.request_cancel(), Some(CancelSignal::Graceful));
    assert_eq!(app.inflight.unwrap().cancel_stage, CancelStage::GracefulRequested);
    assert_eq!(app.status_line, "cancelling (graceful)...");

    assert_eq!(app.request_cancel(), Some(CancelSignal::Force));
    assert_eq!(app.inflight.unwrap().cancel_stage, CancelStage::ForceRequested);
    assert_eq!(app.status_line, "cancelling (forced)...");

    // The third request pushes nothing: force is never re-triggered.
    assert_eq!(app.request_cancel(), None);
    assert_eq!(app.inflight.unwrap().cancel_stage, CancelStage::ForceRequested);
    assert_eq!(
        app.output_lines.last().map(String::as_str),
        Some("Force kill already requested. Waiting for process to exit...")
    );
}

#[test]
fn cancel_without_inflight_is_a_no_op() {
    let mut app = test_state();
    let lines_before = app.output_lines.len();
    assert_eq!(app.request_cancel(), None);
    assert_eq!(app.output_lines.len(), lines_before);
    assert_eq!(app.status_line, "idle");
}

#[test]
fn buffer_holds_most_recent_lines_exactly_at_capacity() {
    let mut app = test_state();
    let total = OUTPUT_BUFFER_LIMIT + 57;
    for i in 0..total {
        app.push_output(format!("line {i}"));
    }
    assert_eq!(app.output_lines.len(), OUTPUT_BUFFER_LIMIT);
    // The oldest excess is gone; the rest is intact and in order.
    assert_eq!(app.output_lines[0], "line 57");
    assert_eq!(app.output_lines[OUTPUT_BUFFER_LIMIT - 1], format!("line {}", total - 1));
    for i in 0..OUTPUT_BUFFER_LIMIT {
        assert_eq!(app.output_lines[i], format!("line {}", i + 57));
    }
}

#[test]
fn buffer_does_not_evict_below_capacity() {
    let mut app = test_state();
    for i in 0..OUTPUT_BUFFER_LIMIT {
        app.push_output(format!("line {i}"));
    }
    assert_eq!(app.output_lines.len(), OUTPUT_BUFFER_LIMIT);
    assert_eq!(app.output_lines[0], "line 0");
}

#[test]
fn stale_completion_leaves_slot_but_logs_message() {
    let mut app = test_state();
    let probe = all_good_probe();
    app.start_terraform_operation(&probe, OperationKind::TerraformPlan);
    let before = app.inflight;

    // Wrong kind.
    app.handle_worker_event(WorkerEvent::OperationFinished {
        kind: OperationKind::TerraformInit,
        account_idx: 0,
        success: true,
        cancelled: false,
        message: "stale init completion".to_string(),
    });
    assert_eq!(app.inflight, before);
    assert_eq!(app.output_lines.last().map(String::as_str), Some("stale init completion"));

    // Wrong account.
    app.handle_worker_event(WorkerEvent::OperationFinished {
        kind: OperationKind::TerraformPlan,
        account_idx: 1,
        success: false,
        cancelled: false,
        message: "stale plan completion".to_string(),
    });
    assert_eq!(app.inflight, before);
    assert_eq!(app.output_lines.last().map(String::as_str), Some("stale plan completion"));

    // The matching one clears it.
    app.handle_worker_event(WorkerEvent::OperationFinished {
        kind: OperationKind::TerraformPlan,
        account_idx: 0,
        success: true,
        cancelled: false,
        message: "done".to_string(),
    });
    assert_eq!(app.inflight, None);
}

#[test]
fn auth_update_overwrites_status_unconditionally() {
    let mut app = test_state();
    app.handle_worker_event(WorkerEvent::AccountAuthUpdate {
        account_idx: 1,
        status: AuthStatus::Failed,
        message: "No valid AWS session for `beta`".to_string(),
    });
    assert_eq!(app.accounts[1].auth, AuthStatus::Failed);
    assert_eq!(app.accounts[0].auth, AuthStatus::Authenticated);
    app.handle_worker_event(WorkerEvent::AccountAuthUpdate {
        account_idx: 1,
        status: AuthStatus::Authenticated,
        message: "Credentials valid for `beta`".to_string(),
    });
    assert_eq!(app.accounts[1].auth, AuthStatus::Authenticated);

    // An update for an account that no longer exists only logs.
    app.handle_worker_event(WorkerEvent::AccountAuthUpdate {
        account_idx: 9,
        status: AuthStatus::Failed,
        message: "late probe result".to_string(),
    });
    assert_eq!(app.output_lines.last().map(String::as_str), Some("late probe result"));
}

#[test]
fn workspaces_are_sorted_and_selection_reset_only_for_selected_account() {
    let mut app = test_state();
    app.selected_workspace = 1;
    app.handle_worker_event(WorkerEvent::WorkspacesLoaded {
        account_idx: 1,
        workspaces: vec!["prod".to_string(), "dev".to_string(), "dev".to_string()],
    });
    assert_eq!(app.accounts[1].workspaces, vec!["dev", "dev", "prod"]);
    // Account 1 is not selected: the selection stays.
    assert_eq!(app.selected_workspace, 1);
    assert_eq!(
        app.output_lines.last().map(String::as_str),
        Some("Loaded 3 workspaces for `beta`")
    );

    app.handle_worker_event(WorkerEvent::WorkspacesLoaded {
        account_idx: 0,
        workspaces: Vec::new(),
    });
    assert_eq!(app.selected_workspace, 0);
    assert_eq!(
        app.output_lines.last().map(String::as_str),
        Some("No workspaces found for `alpha`")
    );
}

#[test]
fn runner_fires_each_escalation_once_and_reports_cancellation() {
    let mut runner = RunnerState::new();
    // Two cancel requests before the process exits.
    assert_eq!(runner.observe(CancelSignal::Graceful), RunnerAction::SendInterrupt);
    assert_eq!(runner.observe(CancelSignal::Graceful), RunnerAction::KeepWaiting);
    assert_eq!(runner.observe(CancelSignal::Force), RunnerAction::ForceKill);
    assert_eq!(runner.observe(CancelSignal::Force), RunnerAction::KeepWaiting);
    // Cancellation is reported even though the process exited cleanly.
    let outcome = runner.outcome(true, Some(0));
    assert!(outcome.cancelled);
    assert!(outcome.success);
    assert_eq!(outcome.exit_code, Some(0));
}

#[test]
fn runner_without_cancellation_reports_plain_outcome() {
    let mut runner = RunnerState::new();
    assert_eq!(runner.observe(CancelSignal::Idle), RunnerAction::KeepWaiting);
    let outcome = runner.outcome(false, Some(2));
    assert!(!outcome.cancelled);
    assert!(!outcome.success);
    assert_eq!(outcome.exit_code, Some(2));
}
