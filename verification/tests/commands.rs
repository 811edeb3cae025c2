//! Command construction, path resolution, preflight checks and the flow
//! decisions on concrete inputs.

use lazytf::account::Account;
use lazytf::account::fallback_composition_path;
use lazytf::account::join_path;
use lazytf::account::resolve_var_file_paths;
use lazytf::command::append_var_file_args;
use lazytf::command::check_auth_command;
use lazytf::command::login_command;
use lazytf::command::terraform_base_command;
use lazytf::command::terraform_operation_args;
use lazytf::command::workspace_list_command;
use lazytf::command::workspace_select_command;
use lazytf::events::WorkerEvent;
use lazytf::flows::CommandResult;
use lazytf::flows::login_after_check;
use lazytf::flows::login_after_run;
use lazytf::flows::operation_outcome_event;
use lazytf::flows::probe_after_check;
use lazytf::flows::workspace_list_failure;
use lazytf::ops::AuthStatus;
use lazytf::ops::OperationKind;
use lazytf::preflight::PreflightError;
use lazytf::preflight::validate_composition_for_execution;
use lazytf::preflight::validate_var_files_for_execution;
use lazytf::runner::RunOutcome;
use lazytf::state::AccountInit;
use lazytf::state::AppState;

fn account_with_var_files() -> Account {
    Account {
        name: "alpha".to_string(),
        aws_profile: "alpha-profile".to_string(),
        region: None,
        composition_path: "/compositions/alpha".to_string(),
        composition_issue: None,
        var_files: vec![
            "/compositions/alpha/base.tfvars".to_string(),
            "/compositions/alpha/extra.tfvars".to_string(),
        ],
        auth: AuthStatus::Authenticated,
        workspaces: Vec::new(),
    }
}

#[test]
fn paths_join_and_fall_back_as_documented() {
    assert_eq!(join_path("/base", "sub"), "/base/sub");
    assert_eq!(join_path("/base/", "sub"), "/base/sub");
    assert_eq!(join_path("/base", "/abs"), "/abs");
    assert_eq!(join_path("", "rel"), "rel");

    // A glob pattern falls back to the working directory itself.
    assert_eq!(fallback_composition_path("/cwd", "envs/*"), "/cwd");
    assert_eq!(fallback_composition_path("/cwd", "envs/alpha"), "/cwd/envs/alpha");
    assert_eq!(fallback_composition_path("/cwd", "/abs/alpha"), "/abs/alpha");
}

#[test]
fn var_files_resolve_against_the_composition() {
    let raw = vec!["a.tfvars".to_string(), "/shared/b.tfvars".to_string()];
    let resolved = resolve_var_file_paths(&raw, "/compositions/alpha");
    assert_eq!(resolved, vec!["/compositions/alpha/a.tfvars", "/shared/b.tfvars"]);
}

#[test]
fn terraform_commands_carry_profile_environment_and_directory() {
    let account = account_with_var_files();
    let base = terraform_base_command(&account);
    assert_eq!(base.program, "terraform");
    assert_eq!(base.cwd.as_deref(), Some("/compositions/alpha"));
    assert_eq!(
        base.env,
        vec![
            ("AWS_PROFILE".to_string(), "alpha-profile".to_string()),
            ("AWS_SDK_LOAD_CONFIG".to_string(), "1".to_string()),
            ("TF_IN_AUTOMATION".to_string(), "1".to_string()),
        ]
    );

    let list = workspace_list_command(&account);
    assert_eq!(list.args, vec!["workspace", "list"]);
    let select = workspace_select_command(&account, &"prod".to_string());
    assert_eq!(select.args, vec!["workspace", "select", "prod"]);
}

#[test]
fn region_override_adds_both_region_variables() {
    let mut account = account_with_var_files();
    account.region = Some("us-east-2".to_string());
    let check = check_auth_command(&account);
    assert_eq!(check.program, "aws");
    assert_eq!(
        check.args,
        vec!["sts", "get-caller-identity", "--profile", "alpha-profile", "--output", "json"]
    );
    assert_eq!(
        check.env,
        vec![
            ("AWS_REGION".to_string(), "us-east-2".to_string()),
            ("AWS_DEFAULT_REGION".to_string(), "us-east-2".to_string()),
        ]
    );
    assert!(check.cwd.is_none());

    let login = login_command(&account);
    assert_eq!(login.program, "aws");
    assert_eq!(login.args, vec!["sso", "login", "--profile", "alpha-profile"]);
    assert!(login.env.is_empty());
}

#[test]
fn operation_arguments_follow_the_kind() {
    let account = account_with_var_files();
    let init = terraform_operation_args(OperationKind::TerraformInit, &account.var_files).unwrap();
    assert_eq!(init, vec!["init", "-input=false", "-no-color"]);

    let plan = terraform_operation_args(OperationKind::TerraformPlan, &account.var_files).unwrap();
    assert_eq!(
        plan,
        vec![
            "plan",
            "-input=false",
            "-no-color",
            "-var-file=/compositions/alpha/base.tfvars",
            "-var-file=/compositions/alpha/extra.tfvars",
        ]
    );

    let apply = terraform_operation_args(OperationKind::TerraformApply, &account.var_files)
        .unwrap();
    assert_eq!(apply[0], "apply");
    assert_eq!(apply[3], "-auto-approve");

    assert!(terraform_operation_args(OperationKind::AuthLogin, &account.var_files).is_none());
    assert!(
        terraform_operation_args(OperationKind::RefreshWorkspaces, &account.var_files).is_none()
    );

    let mut args = vec!["plan".to_string()];
    append_var_file_args(&mut args, &vec!["x.tfvars".to_string()]);
    assert_eq!(args, vec!["plan", "-var-file=x.tfvars"]);
}

#[test]
fn preflight_rejects_each_failure_with_its_message() {
    let mut account = account_with_var_files();

    let err = validate_composition_for_execution(&account, false, false).unwrap_err();
    assert_eq!(
        err.message("alpha"),
        "composition_path does not exist for `alpha`: /compositions/alpha"
    );

    let err = validate_composition_for_execution(&account, true, false).unwrap_err();
    assert_eq!(
        err.message("alpha"),
        "composition_path is not a directory for `alpha`: /compositions/alpha"
    );

    account.composition_issue = Some("composition_path `envs/*` invalid: no match".to_string());
    let err = validate_composition_for_execution(&account, true, true).unwrap_err();
    assert_eq!(
        err.message("alpha"),
        "Account `alpha` configuration is invalid: composition_path `envs/*` invalid: no match"
    );
    account.composition_issue = None;

    assert!(validate_composition_for_execution(&account, true, true).is_ok());

    let err = validate_var_files_for_execution(&account, &vec![true, false]).unwrap_err();
    match &err {
        PreflightError::MissingVarFiles { missing } => {
            assert_eq!(missing, &vec!["/compositions/alpha/extra.tfvars".to_string()]);
        }
        other => panic!("unexpected rejection: {}", other.message("alpha")),
    }
    assert_eq!(
        err.message("alpha"),
        "Configured var_files are missing for `alpha`: /compositions/alpha/extra.tfvars"
    );
    assert!(validate_var_files_for_execution(&account, &vec![true, true]).is_ok());
}

#[test]
fn login_flow_reports_each_stage() {
    let (events, proceed) = login_after_run(
        0,
        "alpha",
        &CommandResult::Completed(RunOutcome { success: true, cancelled: false, exit_code: Some(0) }),
    );
    assert!(proceed);
    assert!(matches!(
        &events[0],
        WorkerEvent::OutputLine(l) if l == "SSO login complete for `alpha`. Checking credentials..."
    ));

    let (events, proceed) = login_after_run(
        0,
        "alpha",
        &CommandResult::Completed(RunOutcome {
            success: false,
            cancelled: true,
            exit_code: Some(130),
        }),
    );
    assert!(!proceed);
    assert!(matches!(
        &events[1],
        WorkerEvent::OperationFinished { kind: OperationKind::AuthLogin, account_idx: 0, success: false, cancelled: true, message }
            if message == "AWS login failed for `alpha` with exit code 130"
    ));

    let (events, proceed) =
        login_after_run(0, "alpha", &CommandResult::SpawnFailed("missing binary".to_string()));
    assert!(!proceed);
    assert!(matches!(
        &events[1],
        WorkerEvent::OperationFinished { message, .. }
            if message == "AWS login execution failed for `alpha`: missing binary"
    ));

    let (events, fetch) = login_after_check(0, "alpha", &Ok(true));
    assert!(fetch);
    assert!(matches!(
        &events[0],
        WorkerEvent::AccountAuthUpdate { status: AuthStatus::Authenticated, message, .. }
            if message == "Authenticated to `alpha`"
    ));

    let (events, fetch) = login_after_check(0, "alpha", &Ok(false));
    assert!(!fetch);
    assert!(matches!(
        &events[0],
        WorkerEvent::AccountAuthUpdate { status: AuthStatus::Failed, message, .. }
            if message == "Credentials for `alpha` are not usable yet"
    ));
}

#[test]
fn probe_flow_degrades_only_the_probed_account() {
    let (events, fetch) = probe_after_check(2, "gamma", &Ok(false));
    assert!(!fetch);
    assert!(matches!(
        &events[0],
        WorkerEvent::AccountAuthUpdate { account_idx: 2, status: AuthStatus::Failed, message }
            if message == "No valid AWS session for `gamma`"
    ));

    let (events, fetch) = probe_after_check(2, "gamma", &Err("timeout".to_string()));
    assert!(!fetch);
    assert!(matches!(
        &events[0],
        WorkerEvent::AccountAuthUpdate { message, .. }
            if message == "Auth check errored for `gamma`: timeout"
    ));
}

#[test]
fn outcome_event_reports_success_cancellation_or_exit_code() {
    let done = operation_outcome_event(
        OperationKind::TerraformPlan,
        0,
        "alpha",
        &RunOutcome { success: true, cancelled: false, exit_code: Some(0) },
    );
    assert!(matches!(
        &done,
        WorkerEvent::OperationFinished { success: true, message, .. }
            if message == "terraform plan succeeded for `alpha`"
    ));

    let cancelled = operation_outcome_event(
        OperationKind::TerraformApply,
        0,
        "alpha",
        &RunOutcome { success: false, cancelled: true, exit_code: None },
    );
    assert!(matches!(
        &cancelled,
        WorkerEvent::OperationFinished { cancelled: true, message, .. }
            if message == "terraform apply cancelled for `alpha`"
    ));

    let failed = operation_outcome_event(
        OperationKind::TerraformInit,
        0,
        "alpha",
        &RunOutcome { success: false, cancelled: false, exit_code: None },
    );
    assert!(matches!(
        &failed,
        WorkerEvent::OperationFinished { message, .. }
            if message == "terraform init failed for `alpha` with exit code -1"
    ));

    assert_eq!(
        workspace_list_failure("alpha", "  Error: state locked \n"),
        "terraform workspace list failed for alpha: Error: state locked"
    );
}

#[test]
fn config_without_accounts_is_rejected() {
    let err = AppState::from_config(Vec::new(), "/cwd").unwrap_err();
    assert_eq!(err, "Config has no accounts. Add at least one account under `accounts:`");
}

#[test]
fn config_builds_accounts_and_warns_about_unresolved_paths() {
    let inits = vec![
        AccountInit {
            name: "alpha".to_string(),
            aws_profile: "alpha-profile".to_string(),
            region: None,
            composition_path: "envs/alpha".to_string(),
            resolution: Ok("/cwd/envs/alpha".to_string()),
            var_files: vec!["vars.tfvars".to_string()],
        },
        AccountInit {
            name: "beta".to_string(),
            aws_profile: "beta-profile".to_string(),
            region: Some("eu-central-1".to_string()),
            composition_path: "envs/beta-*".to_string(),
            resolution: Err("no directories matched".to_string()),
            var_files: Vec::new(),
        },
    ];
    let app = AppState::from_config(inits, "/cwd").unwrap();
    assert_eq!(app.accounts.len(), 2);
    assert_eq!(app.accounts[0].composition_path, "/cwd/envs/alpha");
    assert!(app.accounts[0].composition_issue.is_none());
    assert_eq!(app.accounts[0].var_files, vec!["/cwd/envs/alpha/vars.tfvars"]);
    assert_eq!(app.accounts[0].auth, AuthStatus::Unknown);

    // The glob pattern falls back to the base directory, with a diagnostic.
    assert_eq!(app.accounts[1].composition_path, "/cwd");
    assert_eq!(
        app.accounts[1].composition_issue.as_deref(),
        Some("composition_path `envs/beta-*` invalid: no directories matched")
    );

    assert_eq!(
        app.output_lines,
        vec![
            "lazytf ready. Press `a` to authenticate selected account.",
            "warning: account `beta` composition_path `envs/beta-*` invalid: no directories matched",
            "warning: using fallback path `/cwd` so UI can start; execution remains blocked until fixed",
        ]
    );
    assert_eq!(app.status_line, "idle");
    assert!(app.inflight.is_none());
}
