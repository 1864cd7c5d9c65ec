//! The `git`, `rustfmt` and `pnpm` invocations of the commands, and the
//! reading of their output.

use vstd::prelude::*;

use crate::breaking::record_view;
use crate::github::nonempty_lines;
use crate::patterns::strings_view;
use crate::pr_body::{push_line, push_string};
use crate::text::{
    chars_of, concat2, copy_str, join, join_strings, lines, split_on, split_on_char, string_of,
    trim, trim_chars, trim_str,
};
use crate::workflow::{RunOutput, ToolCall};

verus! {

/// The view of a process call: program, arguments, directory and label.
pub open spec fn tool_view(t: ToolCall) -> (Seq<char>, Seq<Seq<char>>, Seq<char>, Seq<char>) {
    (t.program@, strings_view(t.args@), t.dir@, t.label@)
}

/// `git log` of a range, one record per commit: hash, subject and body
/// separated by `\x1f`, records ended by `\x1e`.
pub open spec fn log_args(range: Seq<char>) -> Seq<Seq<char>> {
    seq!["log"@, "--format=%H%x1f%s%x1f%b%x1e"@, range]
}

/// `git fetch` of two branches.
pub open spec fn fetch_args(base: Seq<char>, head: Seq<char>) -> Seq<Seq<char>> {
    seq!["fetch"@, "--no-tags"@, "--depth=1"@, "origin"@, base, head]
}

/// `git diff --name-only` of a range.
pub open spec fn diff_args(range: Seq<char>) -> Seq<Seq<char>> {
    seq!["diff"@, "--name-only"@, range]
}

/// `git diff --name-only --diff-filter=<f>` of a range.
pub open spec fn diff_filter_args(range: Seq<char>, filter: Seq<char>) -> Seq<Seq<char>> {
    seq!["diff"@, "--name-only"@, "--diff-filter="@ + filter, range]
}

/// `rustfmt --edition 2024 [--check] <files>`.
pub open spec fn rustfmt_args(files: Seq<Seq<char>>, check_only: bool) -> Seq<Seq<char>> {
    if check_only {
        seq!["--edition"@, "2024"@, "--check"@] + files
    } else {
        seq!["--edition"@, "2024"@] + files
    }
}

/// The `(hash, subject, body)` of one log record.
pub open spec fn record_of(record: Seq<char>) -> (Seq<char>, Seq<char>, Seq<char>) {
    let parts = split_on(record, '\x1f');
    (
        trim(parts[0]),
        if parts.len() > 1 {
            trim(parts[1])
        } else {
            Seq::<char>::empty()
        },
        if parts.len() > 2 {
            trim(join(parts.skip(2), seq!['\x1f']))
        } else {
            Seq::<char>::empty()
        },
    )
}

/// The records of a log output: the non-blank pieces between `\x1e`s.
pub open spec fn records_of(pieces: Seq<Seq<char>>) -> Seq<(Seq<char>, Seq<char>, Seq<char>)>
    decreases pieces.len(),
{
    if pieces.len() == 0 {
        Seq::<(Seq<char>, Seq<char>, Seq<char>)>::empty()
    } else {
        let rest = records_of(pieces.drop_last());
        if trim(pieces.last()).len() == 0 {
            rest
        } else {
            rest.push(record_of(pieces.last()))
        }
    }
}

/// The records a `git log` run gives: none when it failed.
pub open spec fn log_records(success: bool, stdout: Seq<char>) -> Seq<(Seq<char>, Seq<char>, Seq<char>)> {
    if success {
        records_of(split_on(stdout, '\x1e'))
    } else {
        Seq::<(Seq<char>, Seq<char>, Seq<char>)>::empty()
    }
}

/// The files a `git diff --name-only` run gives: none when it failed.
pub open spec fn diff_files(success: bool, stdout: Seq<char>) -> Seq<Seq<char>> {
    if success {
        nonempty_lines(lines(stdout))
    } else {
        Seq::<Seq<char>>::empty()
    }
}

/// The `git` calls of the commands and the reading of their output.
pub struct GitCli;

fn tool(program: &str, args: Vec<String>, dir: &str, label: &str) -> (r: ToolCall)
    ensures
        tool_view(r) == (program@, strings_view(args@), dir@, label@),
{
    ToolCall { program: copy_str(program), args, dir: copy_str(dir), label: copy_str(label) }
}

fn one_record(record: &Vec<char>) -> (r: (String, String, String))
    ensures
        (r.0@, r.1@, r.2@) == record_of(record@),
{
    let parts = split_on_char(record, '\x1f');
    proof {
        crate::text::lemma_split_nonempty(record@, '\x1f');
    }
    let hash = string_of(&trim_chars(&parts[0]));
    let subject = if parts.len() > 1 {
        string_of(&trim_chars(&parts[1]))
    } else {
        String::new()
    };
    let body = if parts.len() > 2 {
        let mut rest: Vec<String> = Vec::new();
        let mut i: usize = 2;
        let ghost pv = split_on(record@, '\x1f');
        while i < parts.len()
            invariant
                2 <= i <= parts.len(),
                parts@.len() == pv.len(),
                pv == split_on(record@, '\x1f'),
                forall|k: int| 0 <= k < parts@.len() ==> #[trigger] parts@[k]@ == pv[k],
                strings_view(rest@) == pv.skip(2).take(i - 2),
            decreases parts.len() - i,
        {
            push_string(&mut rest, string_of(&parts[i]));
            i += 1;
            assert(pv.skip(2).take(i - 2) =~= pv.skip(2).take(i - 3).push(pv[i - 1]));
        }
        assert(pv.skip(2).take(parts.len() - 2) =~= pv.skip(2));
        let mut sep = String::new();
        crate::text::push_char(&mut sep, '\x1f');
        assert(sep@ =~= seq!['\x1f']);
        let joined = join_strings(&rest, sep.as_str());
        assert(rest@.map_values(|p: String| p@) =~= strings_view(rest@));
        trim_str(joined.as_str())
    } else {
        String::new()
    };
    (hash, subject, body)
}

impl GitCli {
    /// The `git log` of a range, run in `worktree`.
    pub fn log_call(&self, worktree: &str, range: &str) -> (r: ToolCall)
        ensures
            tool_view(r) == ("git"@, log_args(range@), worktree@, "git log"@),
    {
        let mut a: Vec<String> = Vec::new();
        push_line(&mut a, "log");
        push_line(&mut a, "--format=%H%x1f%s%x1f%b%x1e");
        push_line(&mut a, range);
        tool("git", a, worktree, "git log")
    }

    /// The commit records of a `git log` run (none when it failed).
    pub fn log_commit_records(&self, out: &RunOutput) -> (r: Vec<(String, String, String)>)
        ensures
            r@.map_values(|x: (String, String, String)| record_view(x)) == log_records(
                out.success,
                out.stdout@,
            ),
    {
        let mut records: Vec<(String, String, String)> = Vec::new();
        if !out.success {
            assert(records@.map_values(|x: (String, String, String)| record_view(x)) =~= Seq::<
                (Seq<char>, Seq<char>, Seq<char>),
            >::empty());
            return records;
        }
        let v = chars_of(out.stdout.as_str());
        let pieces = split_on_char(&v, '\x1e');
        let ghost pv = split_on(v@, '\x1e');
        let mut i: usize = 0;
        while i < pieces.len()
            invariant
                i <= pieces.len(),
                pieces@.len() == pv.len(),
                v@ == out.stdout@,
                pv == split_on(v@, '\x1e'),
                forall|k: int| 0 <= k < pieces@.len() ==> #[trigger] pieces@[k]@ == pv[k],
                records@.map_values(|x: (String, String, String)| record_view(x)) == records_of(
                    pv.take(i as int),
                ),
            decreases pieces.len() - i,
        {
            assert(pv.take(i + 1).drop_last() =~= pv.take(i as int));
            let ghost before = records@.map_values(|x: (String, String, String)| record_view(x));
            let t = trim_chars(&pieces[i]);
            if t.len() > 0 {
                let rec = one_record(&pieces[i]);
                let ghost rv = (rec.0@, rec.1@, rec.2@);
                records.push(rec);
                assert(records@.map_values(|x: (String, String, String)| record_view(x)) =~= before.push(
                    rv,
                ));
            }
            i += 1;
        }
        assert(pv.take(pieces.len() as int) =~= pv);
        records
    }

    /// The `git fetch` of two branches, run in `worktree`.
    pub fn fetch_branches(&self, worktree: &str, base_ref: &str, head_ref: &str) -> (r: ToolCall)
        ensures
            tool_view(r) == ("git"@, fetch_args(base_ref@, head_ref@), worktree@, "git fetch"@),
    {
        let mut a: Vec<String> = Vec::new();
        push_line(&mut a, "fetch");
        push_line(&mut a, "--no-tags");
        push_line(&mut a, "--depth=1");
        push_line(&mut a, "origin");
        push_line(&mut a, base_ref);
        push_line(&mut a, head_ref);
        tool("git", a, worktree, "git fetch")
    }

    /// The outcome of a `git fetch` run.
    pub fn fetch_result(&self, out: &RunOutput) -> (r: Result<(), String>)
        ensures
            out.success ==> r is Ok,
            !out.success ==> (r matches Err(e) && e@ == "git fetch failed: "@ + trim(out.stderr@)),
    {
        if out.success {
            Ok(())
        } else {
            Err(concat2("git fetch failed: ", trim_str(out.stderr.as_str()).as_str()))
        }
    }

    /// The `git diff --name-only` of a range, run in `worktree`.
    pub fn diff_name_only(&self, worktree: &str, range: &str) -> (r: ToolCall)
        ensures
            tool_view(r) == ("git"@, diff_args(range@), worktree@, "git diff"@),
    {
        let mut a: Vec<String> = Vec::new();
        push_line(&mut a, "diff");
        push_line(&mut a, "--name-only");
        push_line(&mut a, range);
        tool("git", a, worktree, "git diff")
    }

    /// The `git diff --name-only --diff-filter=<filter>` of a range.
    pub fn diff_name_only_with_filter(&self, worktree: &str, range: &str, diff_filter: &str) -> (r:
        ToolCall)
        ensures
            tool_view(r) == ("git"@, diff_filter_args(range@, diff_filter@), worktree@, "git diff"@),
    {
        let mut a: Vec<String> = Vec::new();
        push_line(&mut a, "diff");
        push_line(&mut a, "--name-only");
        push_string(&mut a, concat2("--diff-filter=", diff_filter));
        push_line(&mut a, range);
        tool("git", a, worktree, "git diff")
    }

    /// The files a `git diff --name-only` run names: trimmed, non-empty
    /// lines (none when it failed).
    pub fn diff_files(&self, out: &RunOutput) -> (r: Vec<String>)
        ensures
            strings_view(r@) == diff_files(out.success, out.stdout@),
    {
        if !out.success {
            return Vec::new();
        }
        crate::github::trimmed_nonempty_lines(out.stdout.as_str())
    }

    /// The `git diff --quiet` of the worktree.
    pub fn has_diff(&self, worktree: &str) -> (r: ToolCall)
        ensures
            tool_view(r) == ("git"@, seq!["diff"@, "--quiet"@], worktree@, "git diff --quiet"@),
    {
        let mut a: Vec<String> = Vec::new();
        push_line(&mut a, "diff");
        push_line(&mut a, "--quiet");
        let r = tool("git", a, worktree, "git diff --quiet");
        r
    }

    /// The `rustfmt` run on files (`None` without files: nothing to check).
    pub fn rustfmt_files(&self, worktree: &str, files: &Vec<String>, check_only: bool) -> (r: Option<
        ToolCall,
    >)
        ensures
            files@.len() == 0 ==> r is None,
            files@.len() > 0 ==> (r matches Some(t) && tool_view(t) == (
                "rustfmt"@,
                rustfmt_args(strings_view(files@), check_only),
                worktree@,
                "rustfmt"@,
            )),
    {
        if files.len() == 0 {
            return None;
        }
        let mut a: Vec<String> = Vec::new();
        push_line(&mut a, "--edition");
        push_line(&mut a, "2024");
        if check_only {
            push_line(&mut a, "--check");
        }
        let ghost head = strings_view(a@);
        let mut i: usize = 0;
        while i < files.len()
            invariant
                i <= files.len(),
                strings_view(a@) == head + strings_view(files@).take(i as int),
            decreases files.len() - i,
        {
            push_line(&mut a, files[i].as_str());
            i += 1;
            assert(strings_view(files@).take(i as int) =~= strings_view(files@).take(i - 1).push(
                files@[i - 1]@,
            ));
        }
        assert(strings_view(files@).take(files.len() as int) =~= strings_view(files@));
        Some(tool("rustfmt", a, worktree, "rustfmt"))
    }
}

} // verus!
