//! Whole-flow scenarios: a plan run from configuration to completion, a
//! double cancellation of an apply, and intent dispatch through the help
//! overlay, the confirmation step and the quit path.

use lazytf::events::WorkerEvent;
use lazytf::flows::operation_outcome_event;
use lazytf::flows::running_line;
use lazytf::flows::workspace_select_line;
use lazytf::intents::UiAction;
use lazytf::intents::UserIntent;
use lazytf::ops::AuthStatus;
use lazytf::ops::CancelSignal;
use lazytf::ops::FocusPanel;
use lazytf::ops::LayoutMode;
use lazytf::ops::OperationKind;
use lazytf::preflight::FsProbe;
use lazytf::runner::RunnerAction;
use lazytf::runner::RunnerState;
use lazytf::state::AccountInit;
use lazytf::state::AppState;

fn probe_for(app: &AppState) -> FsProbe {
    let var_files = app
        .accounts
        .get(app.selected_account)
        .map(|a| a.var_files.len())
        .unwrap_or(0);
    FsProbe {
        composition_exists: true,
        composition_is_dir: true,
        var_files_present: vec![true; var_files],
    }
}

#[test]
fn plan_run_from_config_to_idle() {
    // One account with a valid composition directory.
    let inits = vec![AccountInit {
        name: "alpha".to_string(),
        aws_profile: "alpha-profile".to_string(),
        region: None,
        composition_path: "envs/alpha".to_string(),
        resolution: Ok("/cwd/envs/alpha".to_string()),
        var_files: Vec::new(),
    }];
    let mut app = AppState::from_config(inits, "/cwd").unwrap();

    // The startup probe reports authenticated credentials and workspaces.
    app.handle_worker_event(WorkerEvent::AccountAuthUpdate {
        account_idx: 0,
        status: AuthStatus::Authenticated,
        message: "Credentials valid for `alpha`".to_string(),
    });
    app.handle_worker_event(WorkerEvent::WorkspacesLoaded {
        account_idx: 0,
        workspaces: vec!["dev".to_string(), "prod".to_string()],
    });
    assert_eq!(app.accounts[0].workspaces, vec!["dev", "prod"]);
    assert_eq!(app.selected_workspace, 0);

    // The user moves into the workspace panel and selects `prod`.
    app.focused_panel = FocusPanel::Workspaces;
    let probe = probe_for(&app);
    assert!(matches!(app.handle_intent(UserIntent::MoveDown, &probe), UiAction::DoNothing));
    assert_eq!(app.selected_workspace, 1);

    // The user starts a plan; the launch carries the workspace.
    let action = app.handle_intent(UserIntent::StartPlan, &probe);
    let launch = match action {
        UiAction::SpawnOperation(l) => l,
        _ => panic!("plan start should have been granted"),
    };
    assert_eq!(launch.kind, OperationKind::TerraformPlan);
    assert_eq!(launch.workspace.as_deref(), Some("prod"));
    assert!(app.is_busy());
    assert_eq!(app.status_line, "running terraform plan for alpha");

    // The runner selects the workspace, announces the run, streams five
    // lines, and the process exits cleanly.
    let mark = app.output_lines.len();
    app.handle_worker_event(WorkerEvent::OutputLine(workspace_select_line("prod", "alpha")));
    app.handle_worker_event(WorkerEvent::OutputLine(running_line(
        OperationKind::TerraformPlan,
        "/cwd/envs/alpha",
    )));
    for i in 1..=5 {
        app.handle_worker_event(WorkerEvent::OutputLine(format!("plan output {i}")));
    }
    let mut runner = RunnerState::new();
    assert_eq!(runner.observe(CancelSignal::Idle), RunnerAction::KeepWaiting);
    let outcome = runner.outcome(true, Some(0));
    app.handle_worker_event(operation_outcome_event(
        OperationKind::TerraformPlan,
        0,
        "alpha",
        &outcome,
    ));

    // The slot is free again, the status is idle, and the log holds the
    // banner lines and the five output lines in emission order.
    assert!(app.inflight.is_none());
    assert_eq!(app.status_line, "idle");
    let tail: Vec<&str> = app.output_lines[mark..].iter().map(String::as_str).collect();
    assert_eq!(
        tail,
        vec![
            "Selecting workspace `prod` in `alpha`",
            "Running `terraform plan` in /cwd/envs/alpha",
            "plan output 1",
            "plan output 2",
            "plan output 3",
            "plan output 4",
            "plan output 5",
            "terraform plan succeeded for `alpha`",
        ]
    );
}

#[test]
fn double_cancel_of_apply_fires_each_action_once() {
    let inits = vec![AccountInit {
        name: "alpha".to_string(),
        aws_profile: "alpha-profile".to_string(),
        region: None,
        composition_path: "envs/alpha".to_string(),
        resolution: Ok("/cwd/envs/alpha".to_string()),
        var_files: Vec::new(),
    }];
    let mut app = AppState::from_config(inits, "/cwd").unwrap();
    app.handle_worker_event(WorkerEvent::AccountAuthUpdate {
        account_idx: 0,
        status: AuthStatus::Authenticated,
        message: "Credentials valid for `alpha`".to_string(),
    });
    app.handle_worker_event(WorkerEvent::WorkspacesLoaded {
        account_idx: 0,
        workspaces: vec!["prod".to_string()],
    });

    // Apply needs its confirmation step.
    let probe = probe_for(&app);
    assert!(matches!(app.handle_intent(UserIntent::RequestApply, &probe), UiAction::DoNothing));
    assert!(app.pending_apply_confirmation);
    let action = app.handle_intent(UserIntent::ConfirmApply, &probe);
    let launch = match action {
        UiAction::SpawnOperation(l) => l,
        _ => panic!("apply start should have been granted"),
    };
    assert_eq!(launch.kind, OperationKind::TerraformApply);

    // Two cancel requests in quick succession, before the process exits.
    let mut runner = RunnerState::new();
    let first = match app.handle_intent(UserIntent::Cancel, &probe) {
        UiAction::PushSignal(s) => s,
        _ => panic!("first cancel should push a signal"),
    };
    assert_eq!(first, CancelSignal::Graceful);
    // The runner observes the latest signal value, possibly repeatedly.
    assert_eq!(runner.observe(first), RunnerAction::SendInterrupt);
    assert_eq!(runner.observe(first), RunnerAction::KeepWaiting);

    let second = match app.handle_intent(UserIntent::Cancel, &probe) {
        UiAction::PushSignal(s) => s,
        _ => panic!("second cancel should push a signal"),
    };
    assert_eq!(second, CancelSignal::Force);
    assert_eq!(runner.observe(second), RunnerAction::ForceKill);
    assert_eq!(runner.observe(second), RunnerAction::KeepWaiting);

    // A third request pushes nothing and nothing is re-sent.
    assert!(matches!(app.handle_intent(UserIntent::Cancel, &probe), UiAction::DoNothing));

    // The process happened to exit cleanly; the run still reports
    // cancellation.
    let outcome = runner.outcome(true, Some(0));
    assert!(outcome.cancelled);
    app.handle_worker_event(operation_outcome_event(
        OperationKind::TerraformApply,
        0,
        "alpha",
        &outcome,
    ));
    assert!(app.inflight.is_none());
    assert_eq!(app.status_line, "cancelled");
}

#[test]
fn help_overlay_swallows_most_intents() {
    let inits = vec![AccountInit {
        name: "alpha".to_string(),
        aws_profile: "alpha-profile".to_string(),
        region: None,
        composition_path: "envs/alpha".to_string(),
        resolution: Ok("/cwd/envs/alpha".to_string()),
        var_files: Vec::new(),
    }];
    let mut app = AppState::from_config(inits, "/cwd").unwrap();
    let probe = probe_for(&app);

    assert!(matches!(app.handle_intent(UserIntent::ToggleHelp, &probe), UiAction::DoNothing));
    assert!(app.show_help);

    // A start request is ignored while the help overlay is up.
    let lines = app.output_lines.len();
    assert!(matches!(app.handle_intent(UserIntent::StartInit, &probe), UiAction::DoNothing));
    assert!(!app.is_busy());
    assert_eq!(app.output_lines.len(), lines);

    // Quitting still works from the overlay.
    assert!(matches!(app.handle_intent(UserIntent::Quit, &probe), UiAction::DoNothing));
    assert!(app.quit_requested);
    assert!(app.should_exit());

    app.quit_requested = false;
    assert!(matches!(app.handle_intent(UserIntent::Escape, &probe), UiAction::DoNothing));
    assert!(!app.show_help);
}

#[test]
fn quit_while_busy_escalates_and_defers_exit() {
    let inits = vec![AccountInit {
        name: "alpha".to_string(),
        aws_profile: "alpha-profile".to_string(),
        region: None,
        composition_path: "envs/alpha".to_string(),
        resolution: Ok("/cwd/envs/alpha".to_string()),
        var_files: Vec::new(),
    }];
    let mut app = AppState::from_config(inits, "/cwd").unwrap();
    app.handle_worker_event(WorkerEvent::AccountAuthUpdate {
        account_idx: 0,
        status: AuthStatus::Authenticated,
        message: "Credentials valid for `alpha`".to_string(),
    });
    let probe = probe_for(&app);
    assert!(matches!(
        app.handle_intent(UserIntent::StartInit, &probe),
        UiAction::SpawnOperation(_)
    ));

    let action = app.handle_intent(UserIntent::Quit, &probe);
    assert!(matches!(action, UiAction::PushSignal(CancelSignal::Graceful)));
    assert!(app.quit_requested);
    assert!(!app.should_exit());

    app.handle_worker_event(WorkerEvent::OperationFinished {
        kind: OperationKind::TerraformInit,
        account_idx: 0,
        success: false,
        cancelled: true,
        message: "terraform init cancelled for `alpha`".to_string(),
    });
    assert!(app.should_exit());
    assert_eq!(app.status_line, "cancelled");
}

#[test]
fn layout_toggles_remember_previous_focus() {
    let inits = vec![AccountInit {
        name: "alpha".to_string(),
        aws_profile: "alpha-profile".to_string(),
        region: None,
        composition_path: "envs/alpha".to_string(),
        resolution: Ok("/cwd/envs/alpha".to_string()),
        var_files: Vec::new(),
    }];
    let mut app = AppState::from_config(inits, "/cwd").unwrap();
    let probe = probe_for(&app);

    app.handle_intent(UserIntent::FocusNext, &probe);
    assert_eq!(app.focused_panel, FocusPanel::Workspaces);

    app.handle_intent(UserIntent::ToggleOutputOnly, &probe);
    assert_eq!(app.layout_mode, LayoutMode::OutputOnly);
    assert_eq!(app.focused_panel, FocusPanel::Output);

    // Focus movement is ignored in the full-screen log.
    app.handle_intent(UserIntent::FocusNext, &probe);
    assert_eq!(app.focused_panel, FocusPanel::Output);

    app.handle_intent(UserIntent::Escape, &probe);
    assert_eq!(app.layout_mode, LayoutMode::Split);
    assert_eq!(app.focused_panel, FocusPanel::Workspaces);

    assert_eq!(AuthStatus::Unknown.icon(), "?");
    assert_eq!(AuthStatus::Authenticated.label(), "ready");
    assert_eq!(LayoutMode::Split.label(), "split");
    assert_eq!(OperationKind::TerraformApply.label(), "terraform apply");
    assert!(OperationKind::TerraformApply.requires_workspace());
    assert!(!OperationKind::AuthLogin.requires_workspace());
    assert_eq!(FocusPanel::Accounts.next(), FocusPanel::Workspaces);
    assert_eq!(FocusPanel::Accounts.previous(), FocusPanel::Output);
}

#[test]
fn start_intents_are_rejected_with_hint_while_busy() {
    let inits = vec![AccountInit {
        name: "alpha".to_string(),
        aws_profile: "alpha-profile".to_string(),
        region: None,
        composition_path: "envs/alpha".to_string(),
        resolution: Ok("/cwd/envs/alpha".to_string()),
        var_files: Vec::new(),
    }];
    let mut app = AppState::from_config(inits, "/cwd").unwrap();
    app.handle_worker_event(WorkerEvent::AccountAuthUpdate {
        account_idx: 0,
        status: AuthStatus::Authenticated,
        message: "Credentials valid for `alpha`".to_string(),
    });
    let probe = probe_for(&app);
    assert!(matches!(
        app.handle_intent(UserIntent::StartInit, &probe),
        UiAction::SpawnOperation(_)
    ));

    let inflight = app.inflight;
    assert!(matches!(app.handle_intent(UserIntent::StartLogin, &probe), UiAction::DoNothing));
    assert!(matches!(app.handle_intent(UserIntent::StartRefresh, &probe), UiAction::DoNothing));
    assert!(matches!(app.handle_intent(UserIntent::StartPlan, &probe), UiAction::DoNothing));
    assert_eq!(app.inflight, inflight);
    assert_eq!(
        app.output_lines.last().map(String::as_str),
        Some("Another operation is already running. Press `c` to cancel.")
    );
}

#[test]
fn output_scrolling_follows_focus() {
    let inits = vec![AccountInit {
        name: "alpha".to_string(),
        aws_profile: "alpha-profile".to_string(),
        region: None,
        composition_path: "envs/alpha".to_string(),
        resolution: Ok("/cwd/envs/alpha".to_string()),
        var_files: Vec::new(),
    }];
    let mut app = AppState::from_config(inits, "/cwd").unwrap();
    let probe = probe_for(&app);

    // Scrolling intents are ignored while another panel has focus.
    app.handle_intent(UserIntent::PageUp, &probe);
    assert_eq!(app.output_scroll_from_bottom, 0);

    app.focused_panel = FocusPanel::Output;
    app.handle_intent(UserIntent::PageUp, &probe);
    assert_eq!(app.output_scroll_from_bottom, 10);
    app.handle_intent(UserIntent::MouseScrollUp, &probe);
    assert_eq!(app.output_scroll_from_bottom, 13);
    app.handle_intent(UserIntent::MouseScrollDown, &probe);
    assert_eq!(app.output_scroll_from_bottom, 10);
    app.handle_intent(UserIntent::PageDown, &probe);
    assert_eq!(app.output_scroll_from_bottom, 0);
    app.handle_intent(UserIntent::JumpTop, &probe);
    assert_eq!(app.output_scroll_from_bottom, usize::MAX);
    app.handle_intent(UserIntent::JumpBottom, &probe);
    assert_eq!(app.output_scroll_from_bottom, 0);
    app.handle_intent(UserIntent::MoveUp, &probe);
    assert_eq!(app.output_scroll_from_bottom, 1);
    app.handle_intent(UserIntent::MoveDown, &probe);
    assert_eq!(app.output_scroll_from_bottom, 0);
}
