//! The decisions each background task makes between its external calls.
//! A task runs a command, looks at what came back, and emits events; every
//! one of those decisions is a pure function here, so the task itself is
//! only glue: call, decide, send, repeat.

use vstd::prelude::*;
use vstd::string::StringExecFns;
use crate::events::WorkerEvent;
use crate::ops::AuthStatus;
use crate::ops::OperationKind;
use crate::runner::RunOutcome;
use crate::text::i32_to_dec;
use crate::text::join_with;
use crate::text::spec_idec;
use crate::text::spec_join;
use crate::text::views_of;

verus! {

/// How one external command invocation went: the process ran and exited,
/// or it could not even be spawned (the spawn error's text).
#[derive(Debug)]
pub enum CommandResult {
    Completed(RunOutcome),
    SpawnFailed(String),
}

/// The event is this line of output.
pub open spec fn is_output_line(e: WorkerEvent, line: Seq<char>) -> bool {
    e matches WorkerEvent::OutputLine(l) && l@ == line
}

/// The event is this authentication update.
pub open spec fn is_auth_update(
    e: WorkerEvent,
    idx: usize,
    status: AuthStatus,
    msg: Seq<char>,
) -> bool {
    e matches WorkerEvent::AccountAuthUpdate { account_idx, status: st, message } && account_idx
        == idx && st == status && message@ == msg
}

/// The event is this loaded workspace list.
pub open spec fn is_workspaces_loaded(e: WorkerEvent, idx: usize, ws: Seq<Seq<char>>) -> bool {
    e matches WorkerEvent::WorkspacesLoaded { account_idx, workspaces } && account_idx == idx
        && views_of(workspaces@) == ws
}

/// The event is this completion.
pub open spec fn is_finished(
    e: WorkerEvent,
    kind: OperationKind,
    idx: usize,
    success: bool,
    cancelled: bool,
    msg: Seq<char>,
) -> bool {
    e matches WorkerEvent::OperationFinished {
        kind: k,
        account_idx,
        success: s,
        cancelled: c,
        message,
    } && k == kind && account_idx == idx && s == success && c == cancelled && message@ == msg
}

/// The exit code reported for an outcome: the process's code, or -1 when
/// none was available.
pub open spec fn spec_exit_code_text(code: Option<i32>) -> Seq<char> {
    match code {
        Some(c) => spec_idec(c as int),
        None => spec_idec(-1),
    }
}

/// Renders the exit code of an outcome, -1 when none was available.
pub fn exit_code_text(code: &Option<i32>) -> (r: String)
    ensures
        r@ == spec_exit_code_text(*code),
{
    match code {
        Some(c) => i32_to_dec(*c),
        None => i32_to_dec(-1),
    }
}

/// The line announcing an interactive login.
pub fn login_intro_line(name: &str, profile: &str) -> (r: String)
    ensures
        r@ == "Starting AWS SSO login for `"@ + name@ + "` (profile `"@ + profile@ + "`)"@,
{
    let mut m = String::from_str("Starting AWS SSO login for `");
    m.append(name);
    m.append("` (profile `");
    m.append(profile);
    m.append("`)");
    m
}

/// What the login flow does once the login command finished: on success,
/// announce the credential check and proceed to it; on failure or on a
/// spawn error, mark the account failed and finish the operation,
/// reporting cancellation only when the run observed it.
pub fn login_after_run(account_idx: usize, name: &str, result: &CommandResult) -> (r: (
    Vec<WorkerEvent>,
    bool,
))
    ensures
        match result {
            CommandResult::Completed(outcome) => {
                if outcome.success {
                    &&& r.1
                    &&& r.0@.len() == 1
                    &&& is_output_line(
                        r.0@[0],
                        "SSO login complete for `"@ + name@ + "`. Checking credentials..."@,
                    )
                } else {
                    &&& !r.1
                    &&& r.0@.len() == 2
                    &&& is_auth_update(
                        r.0@[0],
                        account_idx,
                        AuthStatus::Failed,
                        "AWS login failed for `"@ + name@ + "`"@,
                    )
                    &&& is_finished(
                        r.0@[1],
                        OperationKind::AuthLogin,
                        account_idx,
                        false,
                        outcome.cancelled,
                        "AWS login failed for `"@ + name@ + "` with exit code "@
                            + spec_exit_code_text(outcome.exit_code),
                    )
                }
            },
            CommandResult::SpawnFailed(err) => {
                &&& !r.1
                &&& r.0@.len() == 2
                &&& is_auth_update(
                    r.0@[0],
                    account_idx,
                    AuthStatus::Failed,
                    "Failed to run AWS login for `"@ + name@ + "`: "@ + err@,
                )
                &&& is_finished(
                    r.0@[1],
                    OperationKind::AuthLogin,
                    account_idx,
                    false,
                    false,
                    "AWS login execution failed for `"@ + name@ + "`: "@ + err@,
                )
            },
        },
{
    let mut events: Vec<WorkerEvent> = Vec::new();
    match result {
        CommandResult::Completed(outcome) => {
            if outcome.success {
                let mut m = String::from_str("SSO login complete for `");
                m.append(name);
                m.append("`. Checking credentials...");
                events.push(WorkerEvent::OutputLine(m));
                (events, true)
            } else {
                let mut m = String::from_str("AWS login failed for `");
                m.append(name);
                m.append("`");
                events.push(
                    WorkerEvent::AccountAuthUpdate {
                        account_idx,
                        status: AuthStatus::Failed,
                        message: m,
                    },
                );
                let mut f = String::from_str("AWS login failed for `");
                f.append(name);
                f.append("` with exit code ");
                let code = exit_code_text(&outcome.exit_code);
                f.append(code.as_str());
                events.push(
                    WorkerEvent::OperationFinished {
                        kind: OperationKind::AuthLogin,
                        account_idx,
                        success: false,
                        cancelled: outcome.cancelled,
                        message: f,
                    },
                );
                (events, false)
            }
        },
        CommandResult::SpawnFailed(err) => {
            let mut m = String::from_str("Failed to run AWS login for `");
            m.append(name);
            m.append("`: ");
            m.append(err.as_str());
            events.push(
                WorkerEvent::AccountAuthUpdate {
                    account_idx,
                    status: AuthStatus::Failed,
                    message: m,
                },
            );
            let mut f = String::from_str("AWS login execution failed for `");
            f.append(name);
            f.append("`: ");
            f.append(err.as_str());
            events.push(
                WorkerEvent::OperationFinished {
                    kind: OperationKind::AuthLogin,
                    account_idx,
                    success: false,
                    cancelled: false,
                    message: f,
                },
            );
            (events, false)
        },
    }
}

/// What the login flow does once the credential check answered: usable
/// credentials mark the account authenticated and proceed to loading its
/// workspaces; anything else marks it failed and finishes the operation.
pub fn login_after_check(account_idx: usize, name: &str, check: &Result<bool, String>) -> (r: (
    Vec<WorkerEvent>,
    bool,
))
    ensures
        match check {
            Ok(usable) => {
                if *usable {
                    &&& r.1
                    &&& r.0@.len() == 2
                    &&& is_auth_update(
                        r.0@[0],
                        account_idx,
                        AuthStatus::Authenticated,
                        "Authenticated to `"@ + name@ + "`"@,
                    )
                    &&& is_output_line(r.0@[1], "Loading workspaces for `"@ + name@ + "`..."@)
                } else {
                    &&& !r.1
                    &&& r.0@.len() == 2
                    &&& is_auth_update(
                        r.0@[0],
                        account_idx,
                        AuthStatus::Failed,
                        "Credentials for `"@ + name@ + "` are not usable yet"@,
                    )
                    &&& is_finished(
                        r.0@[1],
                        OperationKind::AuthLogin,
                        account_idx,
                        false,
                        false,
                        "Auth check failed for `"@ + name@ + "`"@,
                    )
                }
            },
            Err(err) => {
                &&& !r.1
                &&& r.0@.len() == 2
                &&& is_auth_update(
                    r.0@[0],
                    account_idx,
                    AuthStatus::Failed,
                    "Auth check errored for `"@ + name@ + "`: "@ + err@,
                )
                &&& is_finished(
                    r.0@[1],
                    OperationKind::AuthLogin,
                    account_idx,
                    false,
                    false,
                    "Auth check errored for `"@ + name@ + "`"@,
                )
            },
        },
{
    let mut events: Vec<WorkerEvent> = Vec::new();
    match check {
        Ok(usable) => {
            if *usable {
                let mut m = String::from_str("Authenticated to `");
                m.append(name);
                m.append("`");
                events.push(
                    WorkerEvent::AccountAuthUpdate {
                        account_idx,
                        status: AuthStatus::Authenticated,
                        message: m,
                    },
                );
                let mut l = String::from_str("Loading workspaces for `");
                l.append(name);
                l.append("`...");
                events.push(WorkerEvent::OutputLine(l));
                (events, true)
            } else {
                let mut m = String::from_str("Credentials for `");
                m.append(name);
                m.append("` are not usable yet");
                events.push(
                    WorkerEvent::AccountAuthUpdate {
                        account_idx,
                        status: AuthStatus::Failed,
                        message: m,
                    },
                );
                let mut f = String::from_str("Auth check failed for `");
                f.append(name);
                f.append("`");
                events.push(
                    WorkerEvent::OperationFinished {
                        kind: OperationKind::AuthLogin,
                        account_idx,
                        success: false,
                        cancelled: false,
                        message: f,
                    },
                );
                (events, false)
            }
        },
        Err(err) => {
            let mut m = String::from_str("Auth check errored for `");
            m.append(name);
            m.append("`: ");
            m.append(err.as_str());
            events.push(
                WorkerEvent::AccountAuthUpdate {
                    account_idx,
                    status: AuthStatus::Failed,
                    message: m,
                },
            );
            let mut f = String::from_str("Auth check errored for `");
            f.append(name);
            f.append("`");
            events.push(
                WorkerEvent::OperationFinished {
                    kind: OperationKind::AuthLogin,
                    account_idx,
                    success: false,
                    cancelled: false,
                    message: f,
                },
            );
            (events, false)
        },
    }
}

/// What the login flow does once the workspace listing answered: pass the
/// list on and finish successfully, or finish with the listing's error —
/// the account stays authenticated either way.
pub fn login_after_fetch(account_idx: usize, name: &str, fetch: Result<Vec<String>, String>) -> (r:
    Vec<WorkerEvent>)
    ensures
        match fetch {
            Ok(ws) => {
                &&& r@.len() == 2
                &&& is_workspaces_loaded(r@[0], account_idx, views_of(ws@))
                &&& is_finished(
                    r@[1],
                    OperationKind::AuthLogin,
                    account_idx,
                    true,
                    false,
                    "Auth/login complete for `"@ + name@ + "`"@,
                )
            },
            Err(err) => {
                &&& r@.len() == 1
                &&& is_finished(
                    r@[0],
                    OperationKind::AuthLogin,
                    account_idx,
                    false,
                    false,
                    "Authenticated, but failed to load workspaces for `"@ + name@ + "`: "@
                        + err@,
                )
            },
        },
{
    let mut events: Vec<WorkerEvent> = Vec::new();
    match fetch {
        Ok(ws) => {
            events.push(WorkerEvent::WorkspacesLoaded { account_idx, workspaces: ws });
            let mut f = String::from_str("Auth/login complete for `");
            f.append(name);
            f.append("`");
            events.push(
                WorkerEvent::OperationFinished {
                    kind: OperationKind::AuthLogin,
                    account_idx,
                    success: true,
                    cancelled: false,
                    message: f,
                },
            );
            events
        },
        Err(err) => {
            let mut f = String::from_str("Authenticated, but failed to load workspaces for `");
            f.append(name);
            f.append("`: ");
            f.append(err.as_str());
            events.push(
                WorkerEvent::OperationFinished {
                    kind: OperationKind::AuthLogin,
                    account_idx,
                    success: false,
                    cancelled: false,
                    message: f,
                },
            );
            events
        },
    }
}

/// What the refresh flow does once the listing command finished: on
/// success, proceed to fetching the list; otherwise finish with the exit
/// code or the spawn error, reporting cancellation only when the run
/// observed it.
pub fn refresh_after_run(account_idx: usize, name: &str, result: &CommandResult) -> (r: (
    Vec<WorkerEvent>,
    bool,
))
    ensures
        match result {
            CommandResult::Completed(outcome) => {
                if outcome.success {
                    r.1 && r.0@.len() == 0
                } else {
                    &&& !r.1
                    &&& r.0@.len() == 1
                    &&& is_finished(
                        r.0@[0],
                        OperationKind::RefreshWorkspaces,
                        account_idx,
                        false,
                        outcome.cancelled,
                        "Workspace refresh command failed for `"@ + name@ + "` with exit code "@
                            + spec_exit_code_text(outcome.exit_code),
                    )
                }
            },
            CommandResult::SpawnFailed(err) => {
                &&& !r.1
                &&& r.0@.len() == 1
                &&& is_finished(
                    r.0@[0],
                    OperationKind::RefreshWorkspaces,
                    account_idx,
                    false,
                    false,
                    "Workspace refresh command failed for `"@ + name@ + "`: "@ + err@,
                )
            },
        },
{
    let mut events: Vec<WorkerEvent> = Vec::new();
    match result {
        CommandResult::Completed(outcome) => {
            if outcome.success {
                (events, true)
            } else {
                let mut f = String::from_str("Workspace refresh command failed for `");
                f.append(name);
                f.append("` with exit code ");
                let code = exit_code_text(&outcome.exit_code);
                f.append(code.as_str());
                events.push(
                    WorkerEvent::OperationFinished {
                        kind: OperationKind::RefreshWorkspaces,
                        account_idx,
                        success: false,
                        cancelled: outcome.cancelled,
                        message: f,
                    },
                );
                (events, false)
            }
        },
        CommandResult::SpawnFailed(err) => {
            let mut f = String::from_str("Workspace refresh command failed for `");
            f.append(name);
            f.append("`: ");
            f.append(err.as_str());
            events.push(
                WorkerEvent::OperationFinished {
                    kind: OperationKind::RefreshWorkspaces,
                    account_idx,
                    success: false,
                    cancelled: false,
                    message: f,
                },
            );
            (events, false)
        },
    }
}

/// What the refresh flow does once the workspace listing answered: pass
/// the list on and finish successfully, or finish with the listing's
/// error.
pub fn refresh_after_fetch(account_idx: usize, name: &str, fetch: Result<Vec<String>, String>) -> (
    r: Vec<WorkerEvent>)
    ensures
        match fetch {
            Ok(ws) => {
                &&& r@.len() == 2
                &&& is_workspaces_loaded(r@[0], account_idx, views_of(ws@))
                &&& is_finished(
                    r@[1],
                    OperationKind::RefreshWorkspaces,
                    account_idx,
                    true,
                    false,
                    "Workspace refresh completed for `"@ + name@ + "`"@,
                )
            },
            Err(err) => {
                &&& r@.len() == 1
                &&& is_finished(
                    r@[0],
                    OperationKind::RefreshWorkspaces,
                    account_idx,
                    false,
                    false,
                    "Workspace refresh failed for `"@ + name@ + "`: "@ + err@,
                )
            },
        },
{
    let mut events: Vec<WorkerEvent> = Vec::new();
    match fetch {
        Ok(ws) => {
            events.push(WorkerEvent::WorkspacesLoaded { account_idx, workspaces: ws });
            let mut f = String::from_str("Workspace refresh completed for `");
            f.append(name);
            f.append("`");
            events.push(
                WorkerEvent::OperationFinished {
                    kind: OperationKind::RefreshWorkspaces,
                    account_idx,
                    success: true,
                    cancelled: false,
                    message: f,
                },
            );
            events
        },
        Err(err) => {
            let mut f = String::from_str("Workspace refresh failed for `");
            f.append(name);
            f.append("`: ");
            f.append(err.as_str());
            events.push(
                WorkerEvent::OperationFinished {
                    kind: OperationKind::RefreshWorkspaces,
                    account_idx,
                    success: false,
                    cancelled: false,
                    message: f,
                },
            );
            events
        },
    }
}

/// The line announcing a workspace selection.
pub fn workspace_select_line(workspace: &str, name: &str) -> (r: String)
    ensures
        r@ == "Selecting workspace `"@ + workspace@ + "` in `"@ + name@ + "`"@,
{
    let mut m = String::from_str("Selecting workspace `");
    m.append(workspace);
    m.append("` in `");
    m.append(name);
    m.append("`");
    m
}

/// The line listing the extra parameter files an operation will pass.
pub fn var_files_line(var_files: &Vec<String>) -> (r: String)
    ensures
        r@ == "Using var files: "@ + spec_join(views_of(var_files@), ", "@),
{
    let joined = join_with(var_files, ", ");
    let mut m = String::from_str("Using var files: ");
    m.append(joined.as_str());
    m
}

/// The line announcing that an operation is running in a directory.
pub fn running_line(kind: OperationKind, path: &str) -> (r: String)
    ensures
        r@ == "Running `"@ + kind.spec_label() + "` in "@ + path@,
{
    let mut m = String::from_str("Running `");
    m.append(kind.label());
    m.append("` in ");
    m.append(path);
    m
}

/// The failure text of a workspace listing that exited unsuccessfully,
/// carrying what the command printed on its error stream, trimmed.
pub fn workspace_list_failure(name: &str, stderr_text: &str) -> (r: String)
    ensures
        r@ == "terraform workspace list failed for "@ + name@ + ": "@ + crate::parse::trimmed(
            stderr_text@,
        ),
{
    let trimmed_text = crate::parse::trim_str(stderr_text);
    let mut m = String::from_str("terraform workspace list failed for ");
    m.append(name);
    m.append(": ");
    m.append(trimmed_text.as_str());
    m
}

/// The completion event of a provisioning operation whose process ran:
/// success when it exited cleanly; a cancelled run is reported as
/// cancelled even when the process still exited cleanly — in the message,
/// success takes precedence, then cancellation, then the exit code.
pub fn operation_outcome_event(
    kind: OperationKind,
    account_idx: usize,
    name: &str,
    outcome: &RunOutcome,
) -> (r: WorkerEvent)
    ensures
        is_finished(
            r,
            kind,
            account_idx,
            outcome.success,
            outcome.cancelled,
            if outcome.success {
                kind.spec_label() + " succeeded for `"@ + name@ + "`"@
            } else if outcome.cancelled {
                kind.spec_label() + " cancelled for `"@ + name@ + "`"@
            } else {
                kind.spec_label() + " failed for `"@ + name@ + "` with exit code "@
                    + spec_exit_code_text(outcome.exit_code)
            },
        ),
{
    let message = if outcome.success {
        let mut m = String::from_str(kind.label());
        m.append(" succeeded for `");
        m.append(name);
        m.append("`");
        m
    } else if outcome.cancelled {
        let mut m = String::from_str(kind.label());
        m.append(" cancelled for `");
        m.append(name);
        m.append("`");
        m
    } else {
        let mut m = String::from_str(kind.label());
        m.append(" failed for `");
        m.append(name);
        m.append("` with exit code ");
        let code = exit_code_text(&outcome.exit_code);
        m.append(code.as_str());
        m
    };
    WorkerEvent::OperationFinished {
        kind,
        account_idx,
        success: outcome.success,
        cancelled: outcome.cancelled,
        message,
    }
}

/// The completion event of a provisioning operation that failed before or
/// without an exit status: preflight rejection or spawn failure.
pub fn operation_error_event(
    kind: OperationKind,
    account_idx: usize,
    name: &str,
    err_text: &str,
) -> (r: WorkerEvent)
    ensures
        is_finished(
            r,
            kind,
            account_idx,
            false,
            false,
            kind.spec_label() + " failed for `"@ + name@ + "`: "@ + err_text@,
        ),
{
    let mut m = String::from_str(kind.label());
    m.append(" failed for `");
    m.append(name);
    m.append("`: ");
    m.append(err_text);
    WorkerEvent::OperationFinished {
        kind,
        account_idx,
        success: false,
        cancelled: false,
        message: m,
    }
}

/// The event opening a credential probe: the account is being checked.
pub fn probe_intro_event(account_idx: usize, name: &str, profile: &str) -> (r: WorkerEvent)
    ensures
        is_auth_update(
            r,
            account_idx,
            AuthStatus::Checking,
            "Checking auth for `"@ + name@ + "` (profile `"@ + profile@ + "`)"@,
        ),
{
    let mut m = String::from_str("Checking auth for `");
    m.append(name);
    m.append("` (profile `");
    m.append(profile);
    m.append("`)");
    WorkerEvent::AccountAuthUpdate { account_idx, status: AuthStatus::Checking, message: m }
}

/// What a credential probe does once the check answered: usable
/// credentials mark the account authenticated and proceed to its
/// workspace listing; anything else marks it failed, and never aborts
/// any other account's probe.
pub fn probe_after_check(account_idx: usize, name: &str, check: &Result<bool, String>) -> (r: (
    Vec<WorkerEvent>,
    bool,
))
    ensures
        match check {
            Ok(usable) => {
                if *usable {
                    &&& r.1
                    &&& r.0@.len() == 1
                    &&& is_auth_update(
                        r.0@[0],
                        account_idx,
                        AuthStatus::Authenticated,
                        "Credentials valid for `"@ + name@ + "`"@,
                    )
                } else {
                    &&& !r.1
                    &&& r.0@.len() == 1
                    &&& is_auth_update(
                        r.0@[0],
                        account_idx,
                        AuthStatus::Failed,
                        "No valid AWS session for `"@ + name@ + "`"@,
                    )
                }
            },
            Err(err) => {
                &&& !r.1
                &&& r.0@.len() == 1
                &&& is_auth_update(
                    r.0@[0],
                    account_idx,
                    AuthStatus::Failed,
                    "Auth check errored for `"@ + name@ + "`: "@ + err@,
                )
            },
        },
{
    let mut events: Vec<WorkerEvent> = Vec::new();
    match check {
        Ok(usable) => {
            if *usable {
                let mut m = String::from_str("Credentials valid for `");
                m.append(name);
                m.append("`");
                events.push(
                    WorkerEvent::AccountAuthUpdate {
                        account_idx,
                        status: AuthStatus::Authenticated,
                        message: m,
                    },
                );
                (events, true)
            } else {
                let mut m = String::from_str("No valid AWS session for `");
                m.append(name);
                m.append("`");
                events.push(
                    WorkerEvent::AccountAuthUpdate {
                        account_idx,
                        status: AuthStatus::Failed,
                        message: m,
                    },
                );
                (events, false)
            }
        },
        Err(err) => {
            let mut m = String::from_str("Auth check errored for `");
            m.append(name);
            m.append("`: ");
            m.append(err.as_str());
            events.push(
                WorkerEvent::AccountAuthUpdate {
                    account_idx,
                    status: AuthStatus::Failed,
                    message: m,
                },
            );
            (events, false)
        },
    }
}

/// What a credential probe does once the workspace listing answered: pass
/// the list on, or only log that it is not available yet.
pub fn probe_after_fetch(account_idx: usize, name: &str, fetch: Result<Vec<String>, String>) -> (r:
    Vec<WorkerEvent>)
    ensures
        match fetch {
            Ok(ws) => r@.len() == 1 && is_workspaces_loaded(r@[0], account_idx, views_of(ws@)),
            Err(err) => r@.len() == 1 && is_output_line(
                r@[0],
                "Could not load workspaces for `"@ + name@ + "` yet: "@ + err@,
            ),
        },
{
    let mut events: Vec<WorkerEvent> = Vec::new();
    match fetch {
        Ok(ws) => {
            events.push(WorkerEvent::WorkspacesLoaded { account_idx, workspaces: ws });
            events
        },
        Err(err) => {
            let mut m = String::from_str("Could not load workspaces for `");
            m.append(name);
            m.append("` yet: ");
            m.append(err.as_str());
            events.push(WorkerEvent::OutputLine(m));
            events
        },
    }
}

} // verus!
