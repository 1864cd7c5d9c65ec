use repo_automation::args::CommandArgs;
use repo_automation::cli::{AutomationCli, Dispatch, Subcommand};
use repo_automation::gates::{EventAt, MainPrGate, StableDepsPlaceholder, WorkflowRunPr};
use repo_automation::lint::{FormatAt, LintAt, MarkdownlintAutomation, RustfmtAutomation};
use repo_automation::workflow::{Action, Reply, RunOutput};

fn args(v: &[&str]) -> CommandArgs {
    CommandArgs::new(v.iter().map(|s| s.to_string()).collect())
}

fn ok_run(success: bool, stdout: &str) -> Reply {
    Reply::Run(Ok(RunOutput { success, stdout: stdout.to_string(), stderr: String::new() }))
}

fn done() -> Reply {
    Reply::Done(Ok(()))
}

fn describe(a: &Action) -> String {
    match a {
        Action::Gh(c) => format!("gh {}", c.args.join(" ")),
        Action::Tool(t) => format!("tool {} [{}] in {} as {}", t.program, t.args.join(" "), t.dir, t.label),
        Action::Print(s) => format!("print {s}"),
        Action::SetOutput(k, v) => format!("output {k}={v}"),
        Action::SetEnv(k, v) => format!("env {k}={v}"),
        Action::IsFile(d, f) => format!("isfile {d} {f}"),
        Action::ReadFile(p) => format!("read {p}"),
        Action::Finish(Ok(())) => "finish ok".to_string(),
        Action::Finish(Err(e)) => format!("finish err {e}"),
    }
}

#[test]
fn main_gate_allows_dev_and_hotfixes_only() {
    let gate = |h: &str| MainPrGate::new(args(&["automation", "validate-main-pr-source", "--head-ref", h])).run();
    assert_eq!(gate("dev"), Ok("OK: Branch 'dev' is allowed to merge into main.".to_string()));
    assert_eq!(gate("hotfix/login"), Ok("OK: Branch 'hotfix/login' is allowed to merge into main.".to_string()));
    assert_eq!(
        gate("feature/y"),
        Err("Only 'dev' or 'hotfix/*' branches can merge into main. Received: 'feature/y'.".to_string())
    );
    assert_eq!(gate("development").is_err(), true);
    assert_eq!(
        MainPrGate::new(args(&["automation"])).run(),
        Err("Only 'dev' or 'hotfix/*' branches can merge into main. Received: ''.".to_string())
    );
}

#[test]
fn placeholder_prints_two_lines() {
    assert_eq!(
        StableDepsPlaceholder::new().run(),
        vec![
            "Stable dependency verification is not yet defined for the multi-repository template.".to_string(),
            "Replace this placeholder workflow when repository dependency boundaries are formalized.".to_string(),
        ]
    );
}

#[test]
fn workflow_run_payloads() {
    let w = WorkflowRunPr::new(args(&["automation"]));
    let payload = r#"{"workflow_run": {"pull_requests": [ {"id": 1, "number": 42, "head": {}} ], "number": 7}}"#;
    assert_eq!(w.extract_pr_number(payload), Some(42));
    assert_eq!(w.extract_pr_number(r#"{"pull_requests": [], "number": 9}"#), None);
    assert_eq!(w.extract_pr_number(r#"{"pull_requests":[{"number": 99999999999999999999}]}"#), None);
    assert_eq!(w.resolve_event_path(Some("/env".to_string())), Ok("/env".to_string()));
    assert_eq!(
        w.resolve_event_path(None),
        Err("Missing --event-path and GITHUB_EVENT_PATH".to_string())
    );
    let flagged = WorkflowRunPr::new(args(&["automation", "x", "--event-path", "/flag"]));
    assert_eq!(flagged.resolve_event_path(Some("/env".to_string())), Ok("/flag".to_string()));
}

#[test]
fn workflow_run_steps() {
    let w = WorkflowRunPr::new(args(&["automation", "resolve-workflow-run-pr", "--event-path", "/e.json"]));
    let (at, a) = w.resolve_to_github_output(None, EventAt::Start, Reply::Start);
    assert_eq!(describe(&a), "read /e.json");
    let (at, a) = w.resolve_to_github_output(None, at, Reply::Text(Ok(r#"{"pull_requests":[{"number":5}]}"#.to_string())));
    assert_eq!(describe(&a), "output pr_number=5");
    let (_, a) = w.resolve_to_github_output(None, at, done());
    assert_eq!(describe(&a), "finish ok");

    let (at, _) = w.resolve_to_github_output(None, EventAt::Start, Reply::Start);
    let (at, a) = w.resolve_to_github_output(None, at, Reply::Text(Ok("{}".to_string())));
    assert_eq!(describe(&a), "print No pull request associated with this workflow run; skipping.");
    let (at, a) = w.resolve_to_github_output(None, at, done());
    assert_eq!(describe(&a), "output pr_number=");
    let (_, a) = w.resolve_to_github_output(None, at, done());
    assert_eq!(describe(&a), "finish ok");

    let (at, _) = w.resolve_to_github_output(None, EventAt::Start, Reply::Start);
    let (_, a) = w.resolve_to_github_output(None, at, Reply::Text(Err("denied".to_string())));
    assert_eq!(describe(&a), "finish err Failed to read event payload '/e.json': denied");

    let none = WorkflowRunPr::new(args(&["automation"]));
    let (_, a) = none.resolve_to_github_output(None, EventAt::Start, Reply::Start);
    assert_eq!(describe(&a), "finish err Missing --event-path and GITHUB_EVENT_PATH");
}

#[test]
fn cli_dispatch() {
    let cli = AutomationCli::new(args(&["automation", "rustfmt-pr"]));
    assert!(!cli.should_show_help());
    assert!(matches!(cli.handle_subcommand("rustfmt-pr"), Dispatch::Run(Subcommand::RustfmtPr)));
    assert!(matches!(cli.handle_subcommand("sync-branch"), Dispatch::Run(Subcommand::SyncBranch)));
    assert!(matches!(
        cli.handle_subcommand("resolve-workflow-run-pr"),
        Dispatch::Run(Subcommand::ResolveWorkflowRunPr)
    ));
    match cli.handle_subcommand("bogus") {
        Dispatch::Unknown(m) => assert_eq!(m, "Unknown automation subcommand: bogus"),
        _ => panic!("expected an unknown subcommand"),
    }
    match cli.handle_subcommand("") {
        Dispatch::Help(m) => {
            assert!(m.starts_with("Usage: automation <sync-branch|sync-pull-request|"));
            assert!(m.ends_with("|resolve-workflow-run-pr> [options]"));
        },
        _ => panic!("expected the usage"),
    }
    let help = AutomationCli::new(args(&["automation", "rustfmt-pr", "-h"]));
    assert!(help.should_show_help());
    match help.handle_subcommand("rustfmt-pr") {
        Dispatch::Help(m) => assert_eq!(m, "Usage: automation rustfmt-pr [--base-ref <branch>] [--worktree <path>]"),
        _ => panic!("expected the usage"),
    }
    match help.handle_subcommand("validate-main-pr-source") {
        Dispatch::Help(m) => assert_eq!(m, "Usage: automation validate-main-pr-source --head-ref <branch>"),
        _ => panic!("expected the usage"),
    }
}

#[test]
fn rustfmt_formats_changed_rust_files() {
    let r = RustfmtAutomation::new(args(&["automation", "rustfmt-pr", "--base-ref", "main"]));
    let (at, a) = r.run(FormatAt::Start, Reply::Start);
    assert_eq!(describe(&a), "tool git [diff --name-only origin/main..HEAD] in . as git diff");
    let (at, a) = r.run(at, ok_run(true, "src/a.rs\nREADME.md\n lib/b.rs \n"));
    assert_eq!(describe(&a), "tool rustfmt [--edition 2024 --check src/a.rs lib/b.rs] in . as rustfmt");
    let (at, a) = r.run(at, ok_run(false, ""));
    assert_eq!(describe(&a), "tool rustfmt [--edition 2024 src/a.rs lib/b.rs] in . as rustfmt");
    let (at, a) = r.run(at, ok_run(true, ""));
    assert_eq!(describe(&a), "tool git [diff --quiet] in . as git diff --quiet");
    let (at, a) = r.run(at, ok_run(false, ""));
    assert_eq!(describe(&a), "output needs_formatting=true");
    let (at, a) = r.run(at, done());
    assert_eq!(describe(&a), "output has_changes=true");
    let (_, a) = r.run(at, done());
    assert_eq!(describe(&a), "finish ok");
}

#[test]
fn rustfmt_skips_without_rust_files_or_when_clean() {
    let r = RustfmtAutomation::new(args(&["automation", "rustfmt-pr", "--worktree", "/w"]));
    let (at, a) = r.run(FormatAt::Start, Reply::Start);
    assert_eq!(describe(&a), "tool git [diff --name-only origin/dev..HEAD] in /w as git diff");
    let (at, a) = r.run(at, ok_run(true, "docs/x.md\n"));
    assert_eq!(describe(&a), "print No Rust files modified. Skipping formatting.");
    let (at, a) = r.run(at, done());
    assert_eq!(describe(&a), "output needs_formatting=false");
    let (at, a) = r.run(at, done());
    assert_eq!(describe(&a), "output has_changes=false");
    let (_, a) = r.run(at, done());
    assert_eq!(describe(&a), "finish ok");

    let (at, _) = r.run(FormatAt::Start, Reply::Start);
    let (at, _) = r.run(at, ok_run(true, "a.rs"));
    let (at, a) = r.run(at, ok_run(true, ""));
    assert_eq!(describe(&a), "print Rust files already formatted.");
    let (_, a) = r.run(at, Reply::Done(Err("Missing GITHUB_OUTPUT".to_string())));
    assert_eq!(describe(&a), "finish err Missing GITHUB_OUTPUT");

    let (at, _) = r.run(FormatAt::Start, Reply::Start);
    let (_, a) = r.run(at, Reply::Run(Err("Failed to execute git diff: gone".to_string())));
    assert_eq!(describe(&a), "finish err Failed to execute git diff: gone");
}

#[test]
fn markdownlint_needs_a_base_sha() {
    let m = MarkdownlintAutomation::new(args(&["automation", "markdownlint-pr"]));
    let (_, a) = m.run(LintAt::Start, Reply::Start);
    assert_eq!(describe(&a), "finish err Missing --base-sha");
}

#[test]
fn markdownlint_lints_existing_markdown_files() {
    let m = MarkdownlintAutomation::new(args(&["automation", "markdownlint-pr", "--base-sha", "abc", "--worktree", "/w"]));
    let (at, a) = m.run(LintAt::Start, Reply::Start);
    assert_eq!(describe(&a), "tool git [diff --name-only --diff-filter=ACMRT abc..HEAD] in /w as git diff");
    let (at, a) = m.run(at, ok_run(true, "a.md\nb.txt\nc.md\n"));
    assert_eq!(describe(&a), "isfile /w a.md");
    let (at, a) = m.run(at, Reply::Flag(Ok(true)));
    assert_eq!(describe(&a), "isfile /w c.md");
    let (at, a) = m.run(at, Reply::Flag(Ok(false)));
    assert_eq!(describe(&a), "tool pnpm [dlx markdownlint-cli2 a.md] in /w as markdownlint-cli2 via pnpm");
    let (at, a) = m.run(at, ok_run(false, ""));
    assert_eq!(describe(&a), "print Markdown issues detected. Applying automatic fixes.");
    let (at, a) = m.run(at, done());
    assert_eq!(describe(&a), "tool pnpm [dlx markdownlint-cli2 --fix a.md] in /w as markdownlint-cli2 via pnpm");
    let (at, a) = m.run(at, ok_run(false, ""));
    assert_eq!(describe(&a), "tool git [diff --quiet] in /w as git diff --quiet");
    let (at, a) = m.run(at, ok_run(true, ""));
    assert_eq!(describe(&a), "output has_issues=true");
    let (at, a) = m.run(at, done());
    assert_eq!(describe(&a), "output has_changes=false");
    let (_, a) = m.run(at, done());
    assert_eq!(describe(&a), "finish ok");
}

#[test]
fn markdownlint_skips_when_no_file_is_left() {
    let m = MarkdownlintAutomation::new(args(&["automation", "markdownlint-pr", "--base-sha", "abc"]));
    let (at, _) = m.run(LintAt::Start, Reply::Start);
    let (at, a) = m.run(at, ok_run(true, "gone.md\n"));
    assert_eq!(describe(&a), "isfile . gone.md");
    let (at, a) = m.run(at, Reply::Flag(Ok(false)));
    assert_eq!(describe(&a), "print No Markdown files modified. Skipping linting.");
    let (at, a) = m.run(at, done());
    assert_eq!(describe(&a), "output has_issues=false");
    let (at, a) = m.run(at, done());
    assert_eq!(describe(&a), "output has_changes=false");
    let (_, a) = m.run(at, done());
    assert_eq!(describe(&a), "finish ok");

    let (at, _) = m.run(LintAt::Start, Reply::Start);
    let (_, a) = m.run(at, Reply::Text(Ok(String::new())));
    assert_eq!(describe(&a), "finish err Unexpected reply to the last action.");
}
