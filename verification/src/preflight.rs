//! Checks made before any process is spawned: the account's composition
//! directory must have resolved and exist, and the configured extra
//! parameter files must be present. A failed check costs no process
//! resources; it only yields a log line and a failed status.
//!
//! Whether a path exists on disk is a fact about the world outside this
//! crate; the caller observes it and passes it in, and the rules that
//! combine those facts are verified here.

use vstd::prelude::*;
use vstd::string::StringExecFns;
use crate::account::Account;
use crate::ops::OperationKind;
use crate::text::spec_join;
use crate::text::join_with;
use crate::text::views_of;

verus! {

/// Facts about the filesystem, observed by the caller for one account just
/// before a start request: whether the composition directory exists and is
/// a directory, and which of the account's extra parameter files are
/// present, one flag per configured file, in order.
#[derive(Debug)]
pub struct FsProbe {
    pub composition_exists: bool,
    pub composition_is_dir: bool,
    pub var_files_present: Vec<bool>,
}

impl FsProbe {
    /// The probe describes the account when it carries one presence flag
    /// per configured extra parameter file.
    pub open spec fn describes(self, account: Account) -> bool {
        self.var_files_present@.len() == account.var_files@.len()
    }
}

/// Why an operation was rejected before any process was spawned.
#[derive(Debug)]
pub enum PreflightError {
    /// The composition path never resolved at load time; the diagnostic
    /// recorded then.
    InvalidConfig { issue: String },
    /// The composition path does not exist.
    MissingCompositionPath { path: String },
    /// The composition path exists but is not a directory.
    NotADirectory { path: String },
    /// Some configured extra parameter files are missing.
    MissingVarFiles { missing: Vec<String> },
}

/// The extra parameter files whose presence flag is false, in order.
pub open spec fn spec_missing_files(files: Seq<Seq<char>>, present: Seq<bool>) -> Seq<Seq<char>>
    decreases files.len(),
{
    if files.len() == 0 {
        Seq::empty()
    } else {
        let rest = spec_missing_files(files.drop_last(), present.drop_last());
        if !present.last() {
            rest.push(files.last())
        } else {
            rest
        }
    }
}

/// The mathematical description of one rejection: the variant and the
/// text it carries, over views.
pub ghost enum PreflightIssue {
    InvalidConfig(Seq<char>),
    MissingCompositionPath(Seq<char>),
    NotADirectory(Seq<char>),
    MissingVarFiles(Seq<Seq<char>>),
}

/// The rejection value carries exactly the described diagnosis.
pub open spec fn describes_issue(e: PreflightError, i: PreflightIssue) -> bool {
    match (e, i) {
        (
            PreflightError::InvalidConfig { issue },
            PreflightIssue::InvalidConfig(s),
        ) => issue@ == s,
        (
            PreflightError::MissingCompositionPath { path },
            PreflightIssue::MissingCompositionPath(s),
        ) => path@ == s,
        (PreflightError::NotADirectory { path }, PreflightIssue::NotADirectory(s)) => path@ == s,
        (
            PreflightError::MissingVarFiles { missing },
            PreflightIssue::MissingVarFiles(ms),
        ) => views_of(missing@) == ms,
        _ => false,
    }
}

/// What a composition check yields for given facts: the recorded issue
/// first, then existence, then directory-ness; success exactly when none
/// of the three fails.
pub open spec fn spec_composition_check(account: Account, exists: bool, is_dir: bool) -> Option<
    PreflightIssue,
> {
    if account.composition_issue is Some {
        Some(PreflightIssue::InvalidConfig(account.composition_issue->Some_0@))
    } else if !exists {
        Some(PreflightIssue::MissingCompositionPath(account.composition_path@))
    } else if !is_dir {
        Some(PreflightIssue::NotADirectory(account.composition_path@))
    } else {
        None
    }
}

/// Checks that the account's composition directory is usable: no recorded
/// configuration issue, and the observed facts say the path exists and is
/// a directory.
pub fn validate_composition_for_execution(account: &Account, exists: bool, is_dir: bool) -> (r:
    Result<(), PreflightError>)
    ensures
        match r {
            Ok(_) => spec_composition_check(*account, exists, is_dir) is None,
            Err(e) => spec_composition_check(*account, exists, is_dir) matches Some(exp)
                && describes_issue(e, exp),
        },
{
    match &account.composition_issue {
        Some(issue) => Err(PreflightError::InvalidConfig { issue: issue.clone() }),
        None => {
            if !exists {
                Err(
                    PreflightError::MissingCompositionPath {
                        path: account.composition_path.clone(),
                    },
                )
            } else if !is_dir {
                Err(PreflightError::NotADirectory { path: account.composition_path.clone() })
            } else {
                Ok(())
            }
        },
    }
}

/// Checks that every configured extra parameter file is present, and names
/// the missing ones otherwise.
pub fn validate_var_files_for_execution(account: &Account, present: &Vec<bool>) -> (r: Result<
    (),
    PreflightError,
>)
    requires
        present@.len() == account.var_files@.len(),
    ensures
        match r {
            Ok(_) => spec_missing_files(views_of(account.var_files@), present@).len() == 0,
            Err(e) => {
                let missing = spec_missing_files(views_of(account.var_files@), present@);
                missing.len() != 0 && (e matches PreflightError::MissingVarFiles {
                    missing: m,
                } && views_of(m@) == missing)
            },
        },
{
    let mut missing: Vec<String> = Vec::new();
    let mut i: usize = 0;
    proof {
        let files = views_of(account.var_files@);
        assert(files.take(0) =~= Seq::<Seq<char>>::empty());
        assert(present@.take(0) =~= Seq::<bool>::empty());
        assert(views_of(missing@) =~= spec_missing_files(files.take(0), present@.take(0)));
    }
    while i < account.var_files.len()
        invariant
            i <= account.var_files@.len(),
            present@.len() == account.var_files@.len(),
            views_of(missing@) == spec_missing_files(
                views_of(account.var_files@).take(i as int),
                present@.take(i as int),
            ),
        decreases account.var_files@.len() - i,
    {
        let ghost m_in = missing@;
        if !present[i] {
            missing.push(account.var_files[i].clone());
        }
        proof {
            let files = views_of(account.var_files@);
            assert(files.take(i + 1).drop_last() =~= files.take(i as int));
            assert(present@.take(i + 1).drop_last() =~= present@.take(i as int));
            assert(files.take(i + 1).last() == files[i as int]);
            assert(present@.take(i + 1).last() == present@[i as int]);
            if !present@[i as int] {
                assert(views_of(missing@) =~= views_of(m_in).push(files[i as int]));
            }
        }
        i = i + 1;
    }
    proof {
        let files = views_of(account.var_files@);
        assert(files.take(files.len() as int) =~= files);
        assert(present@.take(present@.len() as int) =~= present@);
    }
    if missing.len() == 0 {
        Ok(())
    } else {
        Err(PreflightError::MissingVarFiles { missing })
    }
}

/// What a full preflight yields: the composition check first; then, for an
/// operation that passes extra parameter files and has some configured,
/// their presence.
pub open spec fn spec_preflight(
    account: Account,
    kind: OperationKind,
    exists: bool,
    is_dir: bool,
    present: Seq<bool>,
) -> Option<PreflightIssue> {
    match spec_composition_check(account, exists, is_dir) {
        Some(e) => Some(e),
        None => {
            if (kind == OperationKind::TerraformPlan || kind == OperationKind::TerraformApply)
                && account.var_files@.len() != 0 && spec_missing_files(
                views_of(account.var_files@),
                present,
            ).len() != 0 {
                Some(PreflightIssue::MissingVarFiles(spec_missing_files(
                    views_of(account.var_files@),
                    present,
                )))
            } else {
                None
            }
        },
    }
}

/// Runs every check an operation needs before a process may be spawned.
pub fn validate_operation_preflight(account: &Account, kind: OperationKind, probe: &FsProbe) -> (r:
    Result<(), PreflightError>)
    requires
        probe.describes(*account),
    ensures
        match r {
            Ok(_) => spec_preflight(
                *account,
                kind,
                probe.composition_exists,
                probe.composition_is_dir,
                probe.var_files_present@,
            ) is None,
            Err(e) => spec_preflight(
                *account,
                kind,
                probe.composition_exists,
                probe.composition_is_dir,
                probe.var_files_present@,
            ) matches Some(exp) && describes_issue(e, exp),
        },
{
    let c = validate_composition_for_execution(
        account,
        probe.composition_exists,
        probe.composition_is_dir,
    );
    match c {
        Err(e) => Err(e),
        Ok(_) => {
            if (matches!(kind, OperationKind::TerraformPlan)
                || matches!(kind, OperationKind::TerraformApply)) && account.var_files.len() != 0 {
                validate_var_files_for_execution(account, &probe.var_files_present)
            } else {
                Ok(())
            }
        },
    }
}


/// What the rendered text of a described rejection says, over views.
pub open spec fn spec_issue_message(i: PreflightIssue, account_name: Seq<char>) -> Seq<char> {
    match i {
        PreflightIssue::InvalidConfig(issue) => "Account `"@ + account_name
            + "` configuration is invalid: "@ + issue,
        PreflightIssue::MissingCompositionPath(path) => {
            "composition_path does not exist for `"@ + account_name + "`: "@ + path
        },
        PreflightIssue::NotADirectory(path) => {
            "composition_path is not a directory for `"@ + account_name + "`: "@ + path
        },
        PreflightIssue::MissingVarFiles(missing) => {
            "Configured var_files are missing for `"@ + account_name + "`: "@ + spec_join(
                missing,
                ", "@,
            )
        },
    }
}

/// A rejection value renders exactly the text of the issue it describes.
pub proof fn lemma_message_of_issue(e: PreflightError, i: PreflightIssue, account_name: Seq<char>)
    requires
        describes_issue(e, i),
    ensures
        e.spec_message(account_name) == spec_issue_message(i, account_name),
{
}

/// The text of one rejection, as the log shows it.
impl PreflightError {
    /// Renders the rejection for the named account.
    pub fn message(&self, account_name: &str) -> (r: String)
        ensures
            r@ == self.spec_message(account_name@),
    {
        match self {
            PreflightError::InvalidConfig { issue } => {
                let mut m = String::from_str("Account `");
                m.append(account_name);
                m.append("` configuration is invalid: ");
                m.append(issue.as_str());
                m
            },
            PreflightError::MissingCompositionPath { path } => {
                let mut m = String::from_str("composition_path does not exist for `");
                m.append(account_name);
                m.append("`: ");
                m.append(path.as_str());
                m
            },
            PreflightError::NotADirectory { path } => {
                let mut m = String::from_str("composition_path is not a directory for `");
                m.append(account_name);
                m.append("`: ");
                m.append(path.as_str());
                m
            },
            PreflightError::MissingVarFiles { missing } => {
                let joined = join_with(missing, ", ");
                let mut m = String::from_str("Configured var_files are missing for `");
                m.append(account_name);
                m.append("`: ");
                m.append(joined.as_str());
                m
            },
        }
    }

    /// What the rendered rejection says.
    pub open spec fn spec_message(self, account_name: Seq<char>) -> Seq<char> {
        match self {
            PreflightError::InvalidConfig { issue } => "Account `"@ + account_name
                + "` configuration is invalid: "@ + issue@,
            PreflightError::MissingCompositionPath { path } => {
                "composition_path does not exist for `"@ + account_name + "`: "@ + path@
            },
            PreflightError::NotADirectory { path } => {
                "composition_path is not a directory for `"@ + account_name + "`: "@ + path@
            },
            PreflightError::MissingVarFiles { missing } => {
                "Configured var_files are missing for `"@ + account_name + "`: "@ + spec_join(
                    views_of(missing@),
                    ", "@,
                )
            },
        }
    }
}

} // verus!
