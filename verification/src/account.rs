//! One configured target environment, and the path arithmetic used to
//! resolve its working directory and extra parameter files. Paths are held
//! as plain strings with `/` as the separator.

use vstd::prelude::*;
use vstd::string::StrSliceExecFns;
use vstd::string::StringExecFns;
use crate::ops::AuthStatus;
use crate::text::views_of;

verus! {

/// One configured account: a stable name, its identity profile, an optional
/// region override, the resolved working directory of its composition (or a
/// fallback plus a diagnostic when resolution failed), its extra parameter
/// files, and the state the reconciler maintains for it.
#[derive(Debug)]
pub struct Account {
    pub name: String,
    pub aws_profile: String,
    pub region: Option<String>,
    pub composition_path: String,
    pub composition_issue: Option<String>,
    pub var_files: Vec<String>,
    pub auth: AuthStatus,
    pub workspaces: Vec<String>,
}

/// Copies a list of strings, keeping each element's text.
pub fn clone_strings(v: &Vec<String>) -> (r: Vec<String>)
    ensures
        r@ == v@,
{
    let mut r: Vec<String> = Vec::new();
    let mut i: usize = 0;
    while i < v.len()
        invariant
            i <= v@.len(),
            r@ == v@.take(i as int),
        decreases v@.len() - i,
    {
        r.push(v[i].clone());
        proof {
            assert(r@ =~= v@.take(i + 1));
        }
        i = i + 1;
    }
    proof {
        assert(v@.take(v@.len() as int) =~= v@);
    }
    r
}

/// Copies an optional string, keeping its text.
pub fn clone_opt_string(v: &Option<String>) -> (r: Option<String>)
    ensures
        r == *v,
{
    match v {
        Some(s) => Some(s.clone()),
        None => None,
    }
}

/// The two accounts agree on every field; list fields are compared by
/// their contents.
pub open spec fn same_account(a: Account, b: Account) -> bool {
    &&& a.name == b.name
    &&& a.aws_profile == b.aws_profile
    &&& a.region == b.region
    &&& a.composition_path == b.composition_path
    &&& a.composition_issue == b.composition_issue
    &&& a.var_files@ == b.var_files@
    &&& a.auth == b.auth
    &&& a.workspaces@ == b.workspaces@
}

impl Account {
    /// A copy of the account, agreeing with it field for field.
    pub fn duplicate(&self) -> (r: Account)
        ensures
            same_account(r, *self),
    {
        Account {
            name: self.name.clone(),
            aws_profile: self.aws_profile.clone(),
            region: clone_opt_string(&self.region),
            composition_path: self.composition_path.clone(),
            composition_issue: clone_opt_string(&self.composition_issue),
            var_files: clone_strings(&self.var_files),
            auth: self.auth,
            workspaces: clone_strings(&self.workspaces),
        }
    }
}

/// A path is absolute when it starts with the separator.
pub open spec fn spec_is_absolute(p: Seq<char>) -> bool {
    p.len() > 0 && p[0] == '/'
}

/// Whether the path is absolute.
pub fn path_is_absolute(p: &str) -> (r: bool)
    ensures
        r == spec_is_absolute(p@),
{
    if p.unicode_len() == 0 {
        false
    } else {
        p.get_char(0) == '/'
    }
}

/// What joining a relative path onto a base yields: the relative path
/// itself when it is absolute, otherwise the base and the path with one
/// separator between them.
pub open spec fn spec_join_path(base: Seq<char>, rel: Seq<char>) -> Seq<char> {
    if spec_is_absolute(rel) {
        rel
    } else if base.len() == 0 {
        rel
    } else if base.last() == '/' {
        base + rel
    } else {
        base + seq!['/'] + rel
    }
}

/// Joins a path onto a base directory.
pub fn join_path(base: &str, rel: &str) -> (r: String)
    ensures
        r@ == spec_join_path(base@, rel@),
{
    if path_is_absolute(rel) {
        return String::from_str(rel);
    }
    let base_len = base.unicode_len();
    if base_len == 0 {
        return String::from_str(rel);
    }
    let mut r = String::from_str(base);
    if base.get_char(base_len - 1) != '/' {
        proof {
            reveal_strlit("/");
        }
        r.append("/");
        proof {
            assert(r@ =~= base@ + seq!['/']);
        }
    }
    r.append(rel);
    proof {
        if base@.last() != '/' {
            assert(r@ =~= base@ + seq!['/'] + rel@);
        }
    }
    r
}

/// A pattern character that makes a configured path a glob.
pub open spec fn is_glob_char(c: char) -> bool {
    c == '*' || c == '?' || c == '['
}

/// Whether the configured path holds a glob pattern character.
pub open spec fn spec_has_glob(p: Seq<char>) -> bool {
    exists|i: int| 0 <= i < p.len() && is_glob_char(p[i])
}

/// Whether the configured path holds a glob pattern character.
pub fn has_glob(p: &str) -> (r: bool)
    ensures
        r == spec_has_glob(p@),
{
    let n = p.unicode_len();
    let mut i: usize = 0;
    while i < n
        invariant
            i <= n,
            n == p@.len(),
            forall|k: int| 0 <= k < i ==> !is_glob_char(p@[k]),
        decreases n - i,
    {
        let c = p.get_char(i);
        if c == '*' || c == '?' || c == '[' {
            return true;
        }
        i = i + 1;
    }
    false
}

/// The working directory used when a configured composition path cannot be
/// resolved, so the interface can still start while execution stays
/// blocked.
pub open spec fn spec_fallback_composition(cwd: Seq<char>, raw: Seq<char>) -> Seq<char> {
    if spec_has_glob(raw) {
        cwd
    } else {
        spec_join_path(cwd, raw)
    }
}

/// Picks the fallback working directory for an unresolvable composition
/// path: the working directory itself for a glob pattern, otherwise the
/// configured path anchored at the working directory.
pub fn fallback_composition_path(cwd: &str, raw_path: &str) -> (r: String)
    ensures
        r@ == spec_fallback_composition(cwd@, raw_path@),
{
    if has_glob(raw_path) {
        return String::from_str(cwd);
    }
    join_path(cwd, raw_path)
}

/// Where each configured extra parameter file resolves to: absolute paths
/// stand as they are, relative ones are anchored at the composition
/// directory.
pub open spec fn spec_resolved_var_files(raws: Seq<Seq<char>>, base: Seq<char>) -> Seq<
    Seq<char>,
> {
    Seq::new(raws.len(), |i: int| spec_join_path(base, raws[i]))
}

/// Resolves the configured extra parameter files against the composition
/// directory.
pub fn resolve_var_file_paths(raw_var_files: &Vec<String>, composition_path: &str) -> (r: Vec<
    String,
>)
    ensures
        views_of(r@) == spec_resolved_var_files(views_of(raw_var_files@), composition_path@),
{
    let mut r: Vec<String> = Vec::new();
    let mut i: usize = 0;
    while i < raw_var_files.len()
        invariant
            i <= raw_var_files@.len(),
            views_of(r@) =~= spec_resolved_var_files(
                views_of(raw_var_files@),
                composition_path@,
            ).take(i as int),
        decreases raw_var_files@.len() - i,
    {
        let ghost r_in = r@;
        let p = join_path(composition_path, raw_var_files[i].as_str());
        proof {
            assert(views_of(raw_var_files@)[i as int] == raw_var_files@[i as int]@);
        }
        r.push(p);
        proof {
            assert(views_of(r@) =~= views_of(r_in).push(p@));
            assert(views_of(r@) =~= spec_resolved_var_files(
                views_of(raw_var_files@),
                composition_path@,
            ).take(i + 1));
        }
        i = i + 1;
    }
    proof {
        let all = spec_resolved_var_files(views_of(raw_var_files@), composition_path@);
        assert(all.take(all.len() as int) =~= all);
    }
    r
}

} // verus!
