//! Construction of the external command invocations the supervisor runs:
//! the identity-provider CLI (login, credential check) and the
//! infrastructure-provisioning CLI (workspace listing and selection, init,
//! plan, apply). A `CommandSpec` is plain data; an outer layer spawns it.

use vstd::prelude::*;
use vstd::string::StringExecFns;
use crate::account::Account;
use crate::ops::OperationKind;
use crate::text::views_of;

verus! {

/// One external command, fully described: program, arguments, extra
/// environment variables, and an optional working directory.
#[derive(Debug)]
pub struct CommandSpec {
    pub program: String,
    pub args: Vec<String>,
    pub env: Vec<(String, String)>,
    pub cwd: Option<String>,
}

/// The views of a list of environment variable pairs.
pub open spec fn env_views(e: Seq<(String, String)>) -> Seq<(Seq<char>, Seq<char>)> {
    e.map_values(|p: (String, String)| (p.0@, p.1@))
}

/// The region environment variables an account contributes: both region
/// variables set to the override when one is configured, nothing
/// otherwise.
pub open spec fn spec_region_env(region: Option<String>) -> Seq<(Seq<char>, Seq<char>)> {
    match region {
        Some(rg) => seq![("AWS_REGION"@, rg@), ("AWS_DEFAULT_REGION"@, rg@)],
        None => Seq::empty(),
    }
}

/// The environment every provisioning command runs with: the account's
/// identity profile, configuration loading switched on, automation mode
/// switched on, and the region override when present.
pub open spec fn spec_terraform_env(a: Account) -> Seq<(Seq<char>, Seq<char>)> {
    seq![
        ("AWS_PROFILE"@, a.aws_profile@),
        ("AWS_SDK_LOAD_CONFIG"@, "1"@),
        ("TF_IN_AUTOMATION"@, "1"@),
    ] + spec_region_env(a.region)
}

/// Pushes the account's region environment variables, when configured.
fn push_region_env(env: &mut Vec<(String, String)>, account: &Account)
    ensures
        env_views(final(env)@) == env_views(old(env)@) + spec_region_env(account.region),
{
    let ghost env_in = env@;
    match &account.region {
        Some(rg) => {
            env.push((String::from_str("AWS_REGION"), rg.clone()));
            env.push((String::from_str("AWS_DEFAULT_REGION"), rg.clone()));
            proof {
                assert(env_views(env@) =~= env_views(env_in) + spec_region_env(account.region));
            }
        },
        None => {
            proof {
                assert(env_views(env@) =~= env_views(env_in) + spec_region_env(account.region));
            }
        },
    }
}

/// Builds the provisioning CLI invocation shared by every operation: the
/// `terraform` program, run in the account's composition directory, with
/// the account's profile and region in the environment.
pub fn terraform_base_command(account: &Account) -> (r: CommandSpec)
    ensures
        r.program@ == "terraform"@,
        r.args@.len() == 0,
        env_views(r.env@) == spec_terraform_env(*account),
        r.cwd matches Some(c) && c@ == account.composition_path@,
{
    let mut env: Vec<(String, String)> = Vec::new();
    env.push((String::from_str("AWS_PROFILE"), account.aws_profile.clone()));
    env.push((String::from_str("AWS_SDK_LOAD_CONFIG"), String::from_str("1")));
    env.push((String::from_str("TF_IN_AUTOMATION"), String::from_str("1")));
    push_region_env(&mut env, account);
    proof {
        assert(env_views(env@) =~= spec_terraform_env(*account));
    }
    CommandSpec {
        program: String::from_str("terraform"),
        args: Vec::new(),
        env,
        cwd: Some(account.composition_path.clone()),
    }
}

/// Builds a provisioning CLI invocation with the given arguments.
pub fn terraform_command(account: &Account, args: Vec<String>) -> (r: CommandSpec)
    ensures
        r.program@ == "terraform"@,
        r.args == args,
        env_views(r.env@) == spec_terraform_env(*account),
        r.cwd matches Some(c) && c@ == account.composition_path@,
{
    let mut r = terraform_base_command(account);
    r.args = args;
    r
}

/// The arguments of a workspace listing.
pub open spec fn spec_workspace_list_args() -> Seq<Seq<char>> {
    seq!["workspace"@, "list"@]
}

/// Builds the workspace listing invocation for an account.
pub fn workspace_list_command(account: &Account) -> (r: CommandSpec)
    ensures
        r.program@ == "terraform"@,
        views_of(r.args@) == spec_workspace_list_args(),
        env_views(r.env@) == spec_terraform_env(*account),
        r.cwd matches Some(c) && c@ == account.composition_path@,
{
    let mut args: Vec<String> = Vec::new();
    args.push(String::from_str("workspace"));
    args.push(String::from_str("list"));
    proof {
        assert(views_of(args@) =~= spec_workspace_list_args());
    }
    terraform_command(account, args)
}

/// The arguments that select one workspace.
pub open spec fn spec_workspace_select_args(name: Seq<char>) -> Seq<Seq<char>> {
    seq!["workspace"@, "select"@, name]
}

/// Builds the invocation that selects the named workspace.
pub fn workspace_select_command(account: &Account, name: &String) -> (r: CommandSpec)
    ensures
        r.program@ == "terraform"@,
        views_of(r.args@) == spec_workspace_select_args(name@),
        env_views(r.env@) == spec_terraform_env(*account),
        r.cwd matches Some(c) && c@ == account.composition_path@,
{
    let mut args: Vec<String> = Vec::new();
    args.push(String::from_str("workspace"));
    args.push(String::from_str("select"));
    args.push(name.clone());
    proof {
        assert(views_of(args@) =~= spec_workspace_select_args(name@));
    }
    terraform_command(account, args)
}

/// One `-var-file=` argument per extra parameter file, in order.
pub open spec fn spec_var_file_args(vfs: Seq<Seq<char>>) -> Seq<Seq<char>> {
    Seq::new(vfs.len(), |i: int| "-var-file="@ + vfs[i])
}

/// Appends one `-var-file=` argument per extra parameter file.
pub fn append_var_file_args(args: &mut Vec<String>, var_files: &Vec<String>)
    ensures
        views_of(final(args)@) == views_of(old(args)@) + spec_var_file_args(
            views_of(var_files@),
        ),
{
    let ghost args_in = args@;
    let mut i: usize = 0;
    while i < var_files.len()
        invariant
            i <= var_files@.len(),
            views_of(args@) =~= views_of(args_in) + spec_var_file_args(
                views_of(var_files@),
            ).take(i as int),
        decreases var_files@.len() - i,
    {
        let ghost before = args@;
        let mut a = String::from_str("-var-file=");
        a.append(var_files[i].as_str());
        args.push(a);
        proof {
            assert(views_of(args@) =~= views_of(before).push("-var-file="@
                + views_of(var_files@)[i as int]));
            assert(views_of(args@) =~= views_of(args_in) + spec_var_file_args(
                views_of(var_files@),
            ).take(i + 1));
        }
        i = i + 1;
    }
    proof {
        let all = spec_var_file_args(views_of(var_files@));
        assert(all.take(all.len() as int) =~= all);
    }
}

/// The arguments of one provisioning operation, or nothing for a kind the
/// runner does not execute through the provisioning CLI.
pub open spec fn spec_operation_args(kind: OperationKind, vfs: Seq<Seq<char>>) -> Option<
    Seq<Seq<char>>,
> {
    match kind {
        OperationKind::TerraformInit => Some(seq!["init"@, "-input=false"@, "-no-color"@]),
        OperationKind::TerraformPlan => Some(
            seq!["plan"@, "-input=false"@, "-no-color"@] + spec_var_file_args(vfs),
        ),
        OperationKind::TerraformApply => Some(
            seq!["apply"@, "-input=false"@, "-no-color"@, "-auto-approve"@]
                + spec_var_file_args(vfs),
        ),
        _ => None,
    }
}

/// Builds the argument list of one provisioning operation: `init`, `plan`
/// or `apply`, non-interactive, with the extra parameter files appended for
/// plan and apply. Yields nothing for the kinds that do not run through the
/// provisioning CLI.
pub fn terraform_operation_args(kind: OperationKind, var_files: &Vec<String>) -> (r: Option<
    Vec<String>,
>)
    ensures
        match r {
            Some(args) => spec_operation_args(kind, views_of(var_files@)) matches Some(a)
                && views_of(args@) == a,
            None => spec_operation_args(kind, views_of(var_files@)) is None,
        },
{
    match kind {
        OperationKind::TerraformInit => {
            let mut args: Vec<String> = Vec::new();
            args.push(String::from_str("init"));
            args.push(String::from_str("-input=false"));
            args.push(String::from_str("-no-color"));
            proof {
                assert(views_of(args@) =~= seq!["init"@, "-input=false"@, "-no-color"@]);
            }
            Some(args)
        },
        OperationKind::TerraformPlan => {
            let mut args: Vec<String> = Vec::new();
            args.push(String::from_str("plan"));
            args.push(String::from_str("-input=false"));
            args.push(String::from_str("-no-color"));
            proof {
                assert(views_of(args@) =~= seq!["plan"@, "-input=false"@, "-no-color"@]);
            }
            append_var_file_args(&mut args, var_files);
            Some(args)
        },
        OperationKind::TerraformApply => {
            let mut args: Vec<String> = Vec::new();
            args.push(String::from_str("apply"));
            args.push(String::from_str("-input=false"));
            args.push(String::from_str("-no-color"));
            args.push(String::from_str("-auto-approve"));
            proof {
                assert(views_of(args@) =~= seq![
                    "apply"@,
                    "-input=false"@,
                    "-no-color"@,
                    "-auto-approve"@,
                ]);
            }
            append_var_file_args(&mut args, var_files);
            Some(args)
        },
        _ => None,
    }
}

/// The arguments of a credential check.
pub open spec fn spec_check_auth_args(profile: Seq<char>) -> Seq<Seq<char>> {
    seq!["sts"@, "get-caller-identity"@, "--profile"@, profile, "--output"@, "json"@]
}

/// Builds the identity CLI invocation that checks whether the account's
/// credentials are currently usable.
pub fn check_auth_command(account: &Account) -> (r: CommandSpec)
    ensures
        r.program@ == "aws"@,
        views_of(r.args@) == spec_check_auth_args(account.aws_profile@),
        env_views(r.env@) == spec_region_env(account.region),
        r.cwd is None,
{
    let mut args: Vec<String> = Vec::new();
    args.push(String::from_str("sts"));
    args.push(String::from_str("get-caller-identity"));
    args.push(String::from_str("--profile"));
    args.push(account.aws_profile.clone());
    args.push(String::from_str("--output"));
    args.push(String::from_str("json"));
    proof {
        assert(views_of(args@) =~= spec_check_auth_args(account.aws_profile@));
    }
    let mut env: Vec<(String, String)> = Vec::new();
    push_region_env(&mut env, account);
    proof {
        assert(env_views(env@) =~= spec_region_env(account.region));
    }
    CommandSpec { program: String::from_str("aws"), args, env, cwd: None }
}

/// The arguments of an interactive login.
pub open spec fn spec_login_args(profile: Seq<char>) -> Seq<Seq<char>> {
    seq!["sso"@, "login"@, "--profile"@, profile]
}

/// Builds the identity CLI invocation that starts an interactive login for
/// the account's profile.
pub fn login_command(account: &Account) -> (r: CommandSpec)
    ensures
        r.program@ == "aws"@,
        views_of(r.args@) == spec_login_args(account.aws_profile@),
        r.env@.len() == 0,
        r.cwd is None,
{
    let mut args: Vec<String> = Vec::new();
    args.push(String::from_str("sso"));
    args.push(String::from_str("login"));
    args.push(String::from_str("--profile"));
    args.push(account.aws_profile.clone());
    proof {
        assert(views_of(args@) =~= spec_login_args(account.aws_profile@));
    }
    CommandSpec { program: String::from_str("aws"), args, env: Vec::new(), cwd: None }
}

} // verus!
