//! Command-line flags of the automation commands.

use vstd::prelude::*;

use crate::reference::{
    parsed_reference, ReferenceInput, ReferenceKind,
    ReferenceNumber,
};
use crate::text::{copy_str, str_eq};

verus! {

/// A usage error, with its message.
#[derive(Clone, Copy, Debug, PartialEq, Eq)]
pub enum CliError {
    Usage(&'static str),
}

/// Why a flag value could not be read.
#[derive(Clone, Copy, Debug, PartialEq, Eq, Structural)]
pub enum FlagProblem {
    /// The flag is the last argument.
    NoValue,
    /// The flag is absent.
    Absent,
}

impl CliError {
    /// The message of the error (its `Display` text).
    pub fn message(&self) -> (r: &'static str)
        ensures
            match self {
                CliError::Usage(m) => r@ == m@,
            },
    {
        match self {
            CliError::Usage(m) => m,
        }
    }
}

/// The error for a flag problem.
pub open spec fn usage_error_of(p: FlagProblem) -> CliError {
    match p {
        FlagProblem::NoValue => CliError::Usage("flag requires a value"),
        FlagProblem::Absent => CliError::Usage("flag is required"),
    }
}

/// The error for a flag problem.
pub fn usage_error(p: FlagProblem) -> (r: CliError)
    ensures
        r == usage_error_of(p),
{
    match p {
        FlagProblem::NoValue => CliError::Usage("flag requires a value"),
        FlagProblem::Absent => CliError::Usage("flag is required"),
    }
}

/// The raw arguments of the program.
#[derive(Clone)]
pub struct CommandArgs {
    pub args: Vec<String>,
}

/// The views of the arguments.
pub open spec fn args_view(a: Seq<String>) -> Seq<Seq<char>> {
    a.map_values(|s: String| s@)
}

/// The first position of `flag` among the arguments.
pub open spec fn first_index(a: Seq<Seq<char>>, flag: Seq<char>) -> Option<int>
    decreases a.len(),
{
    if a.len() == 0 {
        None
    } else if a[0] == flag {
        Some(0)
    } else {
        match first_index(a.drop_first(), flag) {
            Some(i) => Some(i + 1),
            None => None,
        }
    }
}

/// What reading a flag's value gives: the argument after its first
/// occurrence, or the problem.
pub open spec fn flag_value(a: Seq<Seq<char>>, flag: Seq<char>) -> Result<Seq<char>, FlagProblem> {
    match first_index(a, flag) {
        Some(i) => if i + 1 < a.len() {
            Ok(a[i + 1])
        } else {
            Err(FlagProblem::NoValue)
        },
        None => Err(FlagProblem::Absent),
    }
}

/// The flag's value, or `default`.
pub open spec fn flag_value_or(a: Seq<Seq<char>>, flag: Seq<char>, default: Seq<char>) -> Seq<
    char,
> {
    match flag_value(a, flag) {
        Ok(v) => v,
        Err(_) => default,
    }
}

/// The reference a flag names, with `kind` applied when given.
pub open spec fn flag_reference(
    a: Seq<Seq<char>>,
    flag: Seq<char>,
    kind: Option<ReferenceKind>,
) -> Option<ReferenceNumber> {
    match flag_value(a, flag) {
        Ok(v) => match parsed_reference(v) {
            Some(r) => Some(
                match kind {
                    Some(k) => ReferenceNumber { value: r.value, kind: Some(k) },
                    None => r,
                },
            ),
            None => None,
        },
        Err(_) => None,
    }
}


/// The view of an optional string.
pub open spec fn opt_string_view(o: Option<String>) -> Option<Seq<char>> {
    match o {
        Some(s) => Some(s@),
        None => None,
    }
}

/// The view of a string result.
pub open spec fn result_view(r: Result<String, String>) -> Result<Seq<char>, Seq<char>> {
    match r {
        Ok(s) => Ok(s@),
        Err(e) => Err(e@),
    }
}

/// The repository: `--repo`, else `GH_REPO`, else `GITHUB_REPOSITORY`.
pub open spec fn repo_choice(
    args: Seq<Seq<char>>,
    gh_repo: Option<Seq<char>>,
    github_repository: Option<Seq<char>>,
) -> Result<Seq<char>, Seq<char>> {
    match flag_value(args, "--repo"@) {
        Ok(v) => Ok(v),
        Err(_) => match (gh_repo, github_repository) {
            (Some(x), _) => Ok(x),
            (None, Some(y)) => Ok(y),
            (None, None) => Err("Missing repository. Use --repo or GH_REPO/GITHUB_REPOSITORY."@),
        },
    }
}

proof fn lemma_first_index_found(a: Seq<Seq<char>>, flag: Seq<char>, i: int)
    requires
        0 <= i < a.len(),
        a[i] == flag,
        forall|k: int| 0 <= k < i ==> a[k] != flag,
    ensures
        first_index(a, flag) == Some(i),
    decreases i,
{
    if i > 0 {
        lemma_first_index_found(a.drop_first(), flag, i - 1);
    }
}

proof fn lemma_first_index_absent(a: Seq<Seq<char>>, flag: Seq<char>)
    requires
        forall|k: int| 0 <= k < a.len() ==> a[k] != flag,
    ensures
        first_index(a, flag) is None,
    decreases a.len(),
{
    if a.len() > 0 {
        lemma_first_index_absent(a.drop_first(), flag);
    }
}

impl CommandArgs {
    /// Wraps the arguments.
    pub fn new(args: Vec<String>) -> (r: Self)
        ensures
            r.args == args,
    {
        Self { args }
    }

    /// A copy of the arguments, for another command.
    pub fn duplicate(&self) -> (r: Self)
        ensures
            args_view(r.args@) == args_view(self.args@),
    {
        let mut v: Vec<String> = Vec::new();
        let mut i: usize = 0;
        while i < self.args.len()
            invariant
                i <= self.args.len(),
                args_view(v@) == args_view(self.args@).take(i as int),
            decreases self.args.len() - i,
        {
            let ghost before = args_view(v@);
            v.push(copy_str(self.args[i].as_str()));
            assert(args_view(v@) =~= before.push(self.args@[i as int]@));
            i += 1;
            assert(args_view(self.args@).take(i as int) =~= before.push(self.args@[i - 1]@));
        }
        assert(args_view(self.args@).take(self.args.len() as int) =~= args_view(self.args@));
        Self { args: v }
    }

    /// The value following the first occurrence of `flag`.
    pub fn flag_lookup(&self, flag: &str) -> (r: Result<String, FlagProblem>)
        ensures
            match (r, flag_value(args_view(self.args@), flag@)) {
                (Ok(v), Ok(w)) => v@ == w,
                (Err(p), Err(q)) => p == q,
                _ => false,
            },
    {
        let ghost a = args_view(self.args@);
        let mut i: usize = 0;
        while i < self.args.len()
            invariant
                i <= self.args.len(),
                a == args_view(self.args@),
                forall|k: int| 0 <= k < i ==> a[k] != flag@,
            decreases self.args.len() - i,
        {
            if str_eq(self.args[i].as_str(), flag) {
                proof {
                    lemma_first_index_found(a, flag@, i as int);
                }
                if i + 1 < self.args.len() {
                    return Ok(self.args[i + 1].clone());
                } else {
                    return Err(FlagProblem::NoValue);
                }
            }
            i += 1;
        }
        proof {
            lemma_first_index_absent(a, flag@);
        }
        Err(FlagProblem::Absent)
    }

    /// Extracts the value of a flag (e.g. `--issue`).
    pub fn extract_flag_value(&self, flag: &str) -> (r: Result<String, CliError>)
        ensures
            match (r, flag_value(args_view(self.args@), flag@)) {
                (Ok(v), Ok(w)) => v@ == w,
                (Err(e), Err(p)) => e == usage_error_of(p),
                _ => false,
            },
    {
        match self.flag_lookup(flag) {
            Ok(v) => Ok(v),
            Err(p) => Err(usage_error(p)),
        }
    }

    /// The value of a flag, or `default`.
    pub fn extract_flag_value_or(&self, flag: &str, default: &str) -> (r: String)
        ensures
            r@ == flag_value_or(args_view(self.args@), flag@, default@),
    {
        match self.flag_lookup(flag) {
            Ok(v) => v,
            Err(_) => copy_str(default),
        }
    }

    /// The reference given by a flag, with `kind` applied.
    pub fn extract_reference_number(&self, flag: &str, kind: Option<ReferenceKind>) -> (r: Option<
        ReferenceNumber,
    >)
        ensures
            r == flag_reference(args_view(self.args@), flag@, kind),
    {
        match self.flag_lookup(flag) {
            Ok(value) => {
                let input = ReferenceInput::from_text(value.as_str());
                let input = match kind {
                    Some(kind) => input.with_kind(kind),
                    None => input,
                };
                input.normalize()
            },
            Err(_) => None,
        }
    }

    /// Whether `flag` is among the arguments.
    pub fn has_flag(&self, flag: &str) -> (r: bool)
        ensures
            r == args_view(self.args@).contains(flag@),
    {
        let ghost a = args_view(self.args@);
        let mut i: usize = 0;
        while i < self.args.len()
            invariant
                i <= self.args.len(),
                a == args_view(self.args@),
                forall|k: int| 0 <= k < i ==> a[k] != flag@,
            decreases self.args.len() - i,
        {
            if str_eq(self.args[i].as_str(), flag) {
                assert(a[i as int] == flag@);
                return true;
            }
            i += 1;
        }
        false
    }

    /// The repository: `--repo`, else the `GH_REPO` value, else the
    /// `GITHUB_REPOSITORY` value (the environment is read by the caller).
    pub fn resolve_repo(&self, gh_repo: Option<String>, github_repository: Option<String>) -> (r:
        Result<String, String>)
        ensures
            result_view(r) == repo_choice(
                args_view(self.args@),
                opt_string_view(gh_repo),
                opt_string_view(github_repository),
            ),
    {
        match self.flag_lookup("--repo") {
            Ok(v) => Ok(v),
            Err(_) => match gh_repo {
                Some(x) => Ok(x),
                None => match github_repository {
                    Some(y) => Ok(y),
                    None => Err(copy_str("Missing repository. Use --repo or GH_REPO/GITHUB_REPOSITORY.")),
                },
            },
        }
    }

    /// The pull request a flag names.
    pub fn resolve_pull_request_number(&self, flag: &str) -> (r: Result<ReferenceNumber, String>)
        ensures
            match flag_reference(args_view(self.args@), flag@, Some(ReferenceKind::PullRequest)) {
                Some(x) => r == Ok::<ReferenceNumber, String>(x),
                None => r matches Err(e) && e@ == "Invalid or missing pr."@,
            },
    {
        match self.extract_reference_number(flag, Some(ReferenceKind::PullRequest)) {
            Some(x) => Ok(x),
            None => Err(copy_str("Invalid or missing pr.")),
        }
    }

    /// The issue a flag names.
    pub fn resolve_issue_number(&self, flag: &str) -> (r: Result<ReferenceNumber, String>)
        ensures
            match flag_reference(args_view(self.args@), flag@, Some(ReferenceKind::Issue)) {
                Some(x) => r == Ok::<ReferenceNumber, String>(x),
                None => r matches Err(e) && e@ == "Invalid or missing issue."@,
            },
    {
        match self.extract_reference_number(flag, Some(ReferenceKind::Issue)) {
            Some(x) => Ok(x),
            None => Err(copy_str("Invalid or missing issue.")),
        }
    }
}

} // verus!
