//! Checks of the workflow templates: no multiline shell blocks, no legacy
//! automation scripts, only `cargo` run commands and no shell tooling.

use vstd::prelude::*;

use crate::args::{args_view, flag_value_or, result_view, CommandArgs};
use crate::patterns::{matches_in, regex_compiles, regex_error_text, regex_matches, strings_view, FORBIDDEN_COMMAND};
use crate::pr_body::push_string;
use crate::text::{
    chars_of, concat2, contains, contains_str, copy_str, decimal, join, join_strings,
    lines, starts_with, starts_with_str, string_of, trim, trim_chars,
};

verus! {

/// The command checking the workflow templates.
pub struct ScriptsIntegrity {
    pub args: CommandArgs,
}

/// `<path>:<line>`.
pub open spec fn location(path: Seq<char>, n: nat) -> Seq<char> {
    path + ":"@ + decimal(n)
}

/// The command of a `run:` line, trimmed (meaningful when it is one).
pub open spec fn run_command(t: Seq<char>) -> Seq<char> {
    trim(t.skip(4))
}

/// The failures of line `n` (counted from one) of a workflow file, in the
/// order the checks run.
pub open spec fn line_failures(path: Seq<char>, n: nat, raw: Seq<char>) -> Seq<Seq<char>> {
    let t = trim(raw);
    let loc = location(path, n);
    let multiline = if starts_with(t, "run: |"@) {
        seq![loc + " uses multiline shell run blocks"@]
    } else {
        Seq::<Seq<char>>::empty()
    };
    let legacy = if contains(t, "scripts/automation/"@) {
        seq![loc + " still references scripts/automation"@]
    } else {
        Seq::<Seq<char>>::empty()
    };
    let non_rust = if starts_with(t, "run:"@) && run_command(t).len() > 0 && !starts_with(
        run_command(t),
        "cargo "@,
    ) {
        seq![loc + " uses non-Rust run command '"@ + run_command(t) + "'"@]
    } else {
        Seq::<Seq<char>>::empty()
    };
    let tooling = if regex_matches(FORBIDDEN_COMMAND@, t) {
        seq![loc + " contains forbidden shell tooling '"@ + t + "'"@]
    } else {
        Seq::<Seq<char>>::empty()
    };
    multiline + legacy + non_rust + tooling
}

/// The failures of the lines of a file.
pub open spec fn file_failures(path: Seq<char>, ls: Seq<Seq<char>>) -> Seq<Seq<char>>
    decreases ls.len(),
{
    if ls.len() == 0 {
        Seq::<Seq<char>>::empty()
    } else {
        file_failures(path, ls.drop_last()) + line_failures(path, ls.len(), ls.last())
    }
}

/// The failures of all files, in order.
pub open spec fn all_failures(files: Seq<(Seq<char>, Seq<char>)>) -> Seq<Seq<char>>
    decreases files.len(),
{
    if files.len() == 0 {
        Seq::<Seq<char>>::empty()
    } else {
        all_failures(files.drop_last()) + file_failures(files.last().0, lines(files.last().1))
    }
}

/// The first file that could not be read, with its error.
pub open spec fn first_read_error(files: Seq<(Seq<char>, Result<Seq<char>, Seq<char>>)>) -> Option<
    Seq<char>,
>
    decreases files.len(),
{
    if files.len() == 0 {
        None
    } else {
        match files[0].1 {
            Err(e) => Some(e),
            Ok(_) => first_read_error(files.drop_first()),
        }
    }
}

/// The contents, once every file was read.
pub open spec fn contents(files: Seq<(Seq<char>, Result<Seq<char>, Seq<char>>)>) -> Seq<
    (Seq<char>, Seq<char>),
> {
    files.map_values(
        |f: (Seq<char>, Result<Seq<char>, Seq<char>>)|
            (
                f.0,
                match f.1 {
                    Ok(c) => c,
                    Err(_) => Seq::<char>::empty(),
                },
            ),
    )
}

/// The outcome of the checks: the message printed on success, or the error.
pub open spec fn integrity_result(files: Seq<(Seq<char>, Result<Seq<char>, Seq<char>>)>) -> Result<
    Seq<char>,
    Seq<char>,
> {
    if files.len() == 0 {
        Err("No workflow templates found to validate."@)
    } else if !regex_compiles(FORBIDDEN_COMMAND@) {
        Err("Invalid workflow integrity regex: "@ + regex_error_text(FORBIDDEN_COMMAND@))
    } else {
        match first_read_error(files) {
            Some(e) => Err(e),
            None => {
                let failures = all_failures(contents(files));
                if failures.len() == 0 {
                    Ok("Workflow integrity checks passed."@)
                } else {
                    Err("Workflow integrity checks failed:\n"@ + join(failures, "\n"@))
                }
            },
        }
    }
}

/// The view of the files handed to the checks.
pub open spec fn files_view(files: Seq<(String, Result<String, String>)>) -> Seq<
    (Seq<char>, Result<Seq<char>, Seq<char>>),
> {
    files.map_values(
        |f: (String, Result<String, String>)|
            (
                f.0@,
                match f.1 {
                    Ok(c) => Ok(c@),
                    Err(e) => Err(e@),
                },
            ),
    )
}

/// Whether a file name has the extension `yml` or `yaml` (the text after
/// its last `.`, which must not be its first character).
pub open spec fn is_yaml_name(name: Seq<char>) -> bool {
    exists|i: int|
        0 < i < name.len() && name[i] == '.' && (forall|j: int| i < j < name.len() ==> name[j] != '.')
            && (name.skip(i + 1) == "yml"@ || name.skip(i + 1) == "yaml"@)
}

/// The file name of a path: the text after its last `/`.
pub open spec fn file_name(path: Seq<char>) -> Seq<char> {
    if exists|i: int| 0 <= i < path.len() && path[i] == '/' {
        let i = choose|i: int|
            0 <= i < path.len() && path[i] == '/' && forall|j: int| i < j < path.len() ==> path[j]
                != '/';
        path.skip(i + 1)
    } else {
        path
    }
}

/// The paths that name workflow templates, in order.
pub open spec fn workflow_paths(ps: Seq<Seq<char>>) -> Seq<Seq<char>>
    decreases ps.len(),
{
    if ps.len() == 0 {
        ps
    } else if is_yaml_name(file_name(ps.last())) {
        workflow_paths(ps.drop_last()).push(ps.last())
    } else {
        workflow_paths(ps.drop_last())
    }
}

/// `base` joined with the relative path `rel` (`Path::join`).
pub open spec fn joined_path(base: Seq<char>, rel: Seq<char>) -> Seq<char> {
    if base.len() == 0 {
        rel
    } else if base.last() == '/' {
        base + rel
    } else {
        base + "/"@ + rel
    }
}

fn line_checks(failures: &mut Vec<String>, path: &str, n: usize, raw: &Vec<char>)
    requires
        regex_compiles(FORBIDDEN_COMMAND@),
    ensures
        strings_view(final(failures)@) == strings_view(old(failures)@) + line_failures(
            path@,
            n as nat,
            raw@,
        ),
{
    let t = trim_chars(raw);
    let ts = string_of(&t);
    let mut loc = concat2(path, ":");
    crate::text::push_decimal(&mut loc, n as u64);
    let ghost before = strings_view(failures@);
    let ghost tv = t@;
    let ghost lv = loc@;
    assert(lv == location(path@, n as nat));
    if starts_with_str(&t, "run: |") {
        push_string(failures, concat2(loc.as_str(), " uses multiline shell run blocks"));
    }
    let ghost after_a = strings_view(failures@);
    if contains_str(&t, "scripts/automation/") {
        push_string(failures, concat2(loc.as_str(), " still references scripts/automation"));
    }
    let ghost after_b = strings_view(failures@);
    if starts_with_str(&t, "run:") {
        proof {
            reveal_strlit("run:");
        }
        let rest = crate::text::slice_chars(&t, 4, t.len());
        assert(rest@ =~= tv.skip(4));
        let command = trim_chars(&rest);
        if command.len() > 0 && !starts_with_str(&command, "cargo ") {
            let mut m = concat2(loc.as_str(), " uses non-Rust run command '");
            m.append(string_of(&command).as_str());
            m.append("'");
            push_string(failures, m);
        }
    }
    let ghost after_c = strings_view(failures@);
    let tooling = match matches_in(FORBIDDEN_COMMAND, ts.as_str()) {
        Ok(b) => b,
        Err(_) => false,
    };
    if tooling {
        let mut m = concat2(loc.as_str(), " contains forbidden shell tooling '");
        m.append(ts.as_str());
        m.append("'");
        push_string(failures, m);
    }
    assert(strings_view(failures@) =~= before + line_failures(path@, n as nat, raw@));
}

impl ScriptsIntegrity {
    /// The command for the given arguments.
    pub fn new(args: CommandArgs) -> (r: Self)
        ensures
            r.args == args,
    {
        Self { args }
    }

    /// The directories searched for workflow templates, under `--worktree`
    /// (`.` by default).
    pub fn workflow_roots(&self) -> (r: Vec<String>)
        ensures
            strings_view(r@) == seq![
                joined_path(
                    flag_value_or(args_view(self.args.args@), "--worktree"@, "."@),
                    "repository_elements/.github/workflows"@,
                ),
                joined_path(
                    flag_value_or(args_view(self.args.args@), "--worktree"@, "."@),
                    ".github/workflows"@,
                ),
            ],
    {
        let worktree = self.args.extract_flag_value_or("--worktree", ".");
        let mut r: Vec<String> = Vec::new();
        push_string(&mut r, join_path(worktree.as_str(), "repository_elements/.github/workflows"));
        push_string(&mut r, join_path(worktree.as_str(), ".github/workflows"));
        r
    }

    /// The workflow templates among the files of a directory walk: those
    /// whose name ends in `.yml` or `.yaml`, in order.
    pub fn collect_workflow_files(&self, paths: &Vec<String>) -> (r: Vec<String>)
        ensures
            strings_view(r@) == workflow_paths(strings_view(paths@)),
    {
        let ghost pv = strings_view(paths@);
        let mut r: Vec<String> = Vec::new();
        let mut i: usize = 0;
        while i < paths.len()
            invariant
                i <= paths.len(),
                pv == strings_view(paths@),
                strings_view(r@) == workflow_paths(pv.take(i as int)),
            decreases paths.len() - i,
        {
            let ghost before = strings_view(r@);
            assert(pv.take(i + 1).drop_last() =~= pv.take(i as int));
            if is_workflow_file(paths[i].as_str()) {
                push_string(&mut r, copy_str(paths[i].as_str()));
            }
            i += 1;
        }
        assert(pv.take(paths.len() as int) =~= pv);
        r
    }

    /// Checks the workflow files, each given with its content or the error
    /// met reading it: the message to print when every check passes, or the
    /// error listing the failures.
    pub fn run(&self, files: &Vec<(String, Result<String, String>)>) -> (r: Result<String, String>)
        ensures
            result_view(r) == integrity_result(files_view(files@)),
    {
        let ghost fv = files_view(files@);
        if files.len() == 0 {
            return Err(copy_str("No workflow templates found to validate."));
        }
        match matches_in(FORBIDDEN_COMMAND, "") {
            Ok(_) => {},
            Err(e) => {
                return Err(concat2("Invalid workflow integrity regex: ", e.as_str()));
            },
        }
        let mut i: usize = 0;
        assert(fv.skip(0) =~= fv);
        while i < files.len()
            invariant
                i <= files.len(),
                fv == files_view(files@),
                first_read_error(fv) == first_read_error(fv.skip(i as int)),
                regex_compiles(FORBIDDEN_COMMAND@),
                files@.len() > 0,
            decreases files.len() - i,
        {
            assert(fv.skip(i as int)[0] == fv[i as int]);
            assert(fv.skip(i as int).drop_first() =~= fv.skip(i + 1));
            match &files[i].1 {
                Err(e) => {
                    return Err(copy_str(e.as_str()));
                },
                Ok(_) => {},
            }
            i += 1;
        }
        assert(fv.skip(files.len() as int) =~= Seq::<(Seq<char>, Result<Seq<char>, Seq<char>>)>::empty());
        let ghost cv = contents(fv);
        let mut failures: Vec<String> = Vec::new();
        let mut k: usize = 0;
        while k < files.len()
            invariant
                k <= files.len(),
                fv == files_view(files@),
                cv == contents(fv),
                regex_compiles(FORBIDDEN_COMMAND@),
                strings_view(failures@) == all_failures(cv.take(k as int)),
            decreases files.len() - k,
        {
            assert(cv.take(k + 1).drop_last() =~= cv.take(k as int));
            let path = files[k].0.as_str();
            let content = match &files[k].1 {
                Ok(c) => copy_str(c.as_str()),
                Err(_) => String::new(),
            };
            let v = chars_of(content.as_str());
            let ls = crate::text::lines_chars(&v);
            let ghost start = strings_view(failures@);
            let mut n: usize = 0;
            while n < ls.len()
                invariant
                    n <= ls.len(),
                    ls@.len() == lines(v@).len(),
                    forall|q: int| 0 <= q < ls@.len() ==> #[trigger] ls@[q]@ == lines(v@)[q],
                    regex_compiles(FORBIDDEN_COMMAND@),
                    strings_view(failures@) == start + file_failures(path@, lines(v@).take(n as int)),
                decreases ls.len() - n,
            {
                assert(lines(v@).take(n + 1).drop_last() =~= lines(v@).take(n as int));
                line_checks(&mut failures, path, n + 1, &ls[n]);
                n += 1;
                assert(strings_view(failures@) =~= start + file_failures(
                    path@,
                    lines(v@).take(n as int),
                ));
            }
            assert(lines(v@).take(ls.len() as int) =~= lines(v@));
            assert(cv.take(k + 1).last() == (path@, v@));
            k += 1;
            assert(strings_view(failures@) =~= all_failures(cv.take(k as int)));
        }
        assert(cv.take(files.len() as int) =~= cv);
        if failures.len() == 0 {
            Ok(copy_str("Workflow integrity checks passed."))
        } else {
            let joined = join_strings(&failures, "\n");
            assert(failures@.map_values(|p: String| p@) =~= strings_view(failures@));
            Err(concat2("Workflow integrity checks failed:\n", joined.as_str()))
        }
    }
}

/// `base` joined with the relative path `rel`.
pub fn join_path(base: &str, rel: &str) -> (r: String)
    ensures
        r@ == joined_path(base@, rel@),
{
    let b = chars_of(base);
    if b.len() == 0 {
        copy_str(rel)
    } else if b[b.len() - 1] == '/' {
        concat2(base, rel)
    } else {
        crate::text::concat3(base, "/", rel)
    }
}

/// Whether a path names a workflow template (`.yml` or `.yaml`).
pub fn is_workflow_file(path: &str) -> (r: bool)
    ensures
        r == is_yaml_name(file_name(path@)),
{
    let v = chars_of(path);
    // The file name: after the last `/`.
    let mut start: usize = 0;
    let mut i: usize = 0;
    while i < v.len()
        invariant
            i <= v.len(),
            start <= i,
            v@ == path@,
            start == 0 ==> forall|j: int| 0 <= j < i ==> v@[j] != '/',
            start > 0 ==> v@[start - 1] == '/' && forall|j: int| start <= j < i ==> v@[j] != '/',
        decreases v.len() - i,
    {
        if v[i] == '/' {
            start = i + 1;
        }
        i += 1;
    }
    let name = crate::text::slice_chars(&v, start, v.len());
    proof {
        if start > 0 {
            let k = (start - 1) as int;
            assert(exists|q: int| 0 <= q < path@.len() && path@[q] == '/');
            let c = choose|q: int|
                0 <= q < path@.len() && path@[q] == '/' && forall|j: int| q < j < path@.len() ==> path@[j]
                    != '/';
            assert(0 <= k < path@.len() && path@[k] == '/' && forall|j: int| k < j < path@.len() ==> path@[j]
                != '/');
            if c < k {
                assert(path@[k] == '/');
            } else if c > k {
                assert(path@[c] == '/');
            }
            assert(name@ =~= path@.skip(start as int));
        } else {
            assert(name@ =~= path@);
        }
        assert(name@ == file_name(path@));
    }
    // The extension: after the last `.`, which must not be the first
    // character.
    let mut dot: usize = 0;
    let mut found = false;
    let mut j: usize = 0;
    while j < name.len()
        invariant
            j <= name.len(),
            found ==> 0 <= dot < j && name@[dot as int] == '.' && forall|q: int| dot < q < j ==> name@[q] != '.',
            !found ==> forall|q: int| 0 <= q < j ==> name@[q] != '.',
        decreases name.len() - j,
    {
        if name[j] == '.' {
            dot = j;
            found = true;
        }
        j += 1;
    }
    if !found || dot == 0 {
        proof {
            if is_yaml_name(name@) {
                let w = choose|q: int|
                    0 < q < name@.len() && name@[q] == '.' && (forall|m: int| q < m < name@.len() ==> name@[m]
                        != '.') && (name@.skip(q + 1) == "yml"@ || name@.skip(q + 1) == "yaml"@);
                if found {
                    if w < dot as int {
                        assert(name@[dot as int] == '.');
                    }
                }
            }
        }
        return false;
    }
    let ext = crate::text::slice_chars(&name, dot + 1, name.len());
    assert(ext@ =~= name@.skip(dot + 1));
    let e = string_of(&ext);
    let r = crate::text::str_eq(e.as_str(), "yml") || crate::text::str_eq(e.as_str(), "yaml");
    proof {
        if is_yaml_name(name@) {
            let w = choose|q: int|
                0 < q < name@.len() && name@[q] == '.' && (forall|m: int| q < m < name@.len() ==> name@[m]
                    != '.') && (name@.skip(q + 1) == "yml"@ || name@.skip(q + 1) == "yaml"@);
            if w < dot as int {
                assert(name@[dot as int] == '.');
            } else if w > dot as int {
                assert(name@[w] == '.');
            }
        }
    }
    r
}

} // verus!
