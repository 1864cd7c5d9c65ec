use repo_automation::args::{CliError, CommandArgs};
use repo_automation::body_block::ManagedBodyBlock;
use repo_automation::dev_status::{IssueReopenOnDev, ReopenAt};
use repo_automation::reference::ReferenceKind;
use repo_automation::workflow::{Action, Reply};

fn args(v: &[&str]) -> CommandArgs {
    CommandArgs::new(v.iter().map(|s| s.to_string()).collect())
}

#[test]
fn flag_values_and_their_problems() {
    let a = args(&["automation", "x", "--pr", "#12", "--label", "done", "--empty"]);
    assert_eq!(a.extract_flag_value("--label"), Ok("done".to_string()));
    assert_eq!(a.extract_flag_value("--empty"), Err(CliError::Usage("flag requires a value")));
    assert_eq!(a.extract_flag_value("--repo"), Err(CliError::Usage("flag is required")));
    assert_eq!(a.extract_flag_value_or("--repo", "fallback"), "fallback");
    assert!(a.has_flag("--empty"));
    assert!(!a.has_flag("--help"));
    let pr = a.extract_reference_number("--pr", Some(ReferenceKind::PullRequest)).unwrap();
    assert_eq!(pr.value, 12);
    assert!(pr.is_pull_request());
    assert_eq!(a.resolve_pull_request_number("--pr").unwrap().value, 12);
    assert_eq!(a.resolve_issue_number("--issue").unwrap_err(), "Invalid or missing issue.");
    assert_eq!(args(&["--pr", "abc"]).resolve_pull_request_number("--pr").unwrap_err(), "Invalid or missing pr.");
}

#[test]
fn repository_comes_from_flag_then_environment() {
    let with_flag = args(&["automation", "x", "--repo", "o/flag"]);
    assert_eq!(
        with_flag.resolve_repo(Some("o/gh".to_string()), Some("o/gha".to_string())),
        Ok("o/flag".to_string())
    );
    let bare = args(&["automation", "x"]);
    assert_eq!(bare.resolve_repo(Some("o/gh".to_string()), Some("o/gha".to_string())), Ok("o/gh".to_string()));
    assert_eq!(bare.resolve_repo(None, Some("o/gha".to_string())), Ok("o/gha".to_string()));
    assert_eq!(
        bare.resolve_repo(None, None),
        Err("Missing repository. Use --repo or GH_REPO/GITHUB_REPOSITORY.".to_string())
    );
}

#[test]
fn block_markers_are_taken_literally() {
    let body = "Keep\n<!-- aXb -->\nx\n<!-- end -->\nTail";
    assert_eq!(ManagedBodyBlock::remove(body, "<!-- a.b -->", "<!-- end -->"), body);
    assert_eq!(ManagedBodyBlock::remove(body, "<!-- aXb -->", "<!-- end -->"), "KeepTail");
}

fn gh_args(a: &Action) -> Vec<String> {
    match a {
        Action::Gh(c) => c.args.clone(),
        _ => panic!("expected a gh call"),
    }
}

#[test]
fn reopen_on_dev_stops_for_other_bases() {
    let cmd = IssueReopenOnDev::new(args(&["automation", "reopen-on-dev", "--pr", "12", "--repo", "o/r"]));
    let (at, a) = cmd.run(None, None, ReopenAt::Start, Reply::Start);
    assert_eq!(
        gh_args(&a),
        vec!["pr", "view", "--repo", "o/r", "12", "--json", "baseRefName", "--jq", ".baseRefName"]
    );
    let (at, a) = cmd.run(None, None, at, Reply::Text(Ok("main".to_string())));
    match a {
        Action::Print(m) => assert_eq!(m, "PR #12 does not target dev; nothing to do."),
        _ => panic!("expected a message"),
    }
    let (_, a) = cmd.run(None, None, at, Reply::Done(Ok(())));
    assert!(matches!(a, Action::Finish(Ok(()))));
}

#[test]
fn reopen_on_dev_reports_missing_inputs() {
    let no_repo = IssueReopenOnDev::new(args(&["automation", "reopen-on-dev", "--pr", "12"]));
    match no_repo.run(None, None, ReopenAt::Start, Reply::Start).1 {
        Action::Finish(Err(e)) => assert_eq!(e, "Missing repository. Use --repo or GH_REPO/GITHUB_REPOSITORY."),
        _ => panic!("expected an error"),
    }
    let no_pr = IssueReopenOnDev::new(args(&["automation", "reopen-on-dev"]));
    match no_pr.run(Some("o/r".to_string()), None, ReopenAt::Start, Reply::Start).1 {
        Action::Finish(Err(e)) => assert_eq!(e, "Invalid or missing pr."),
        _ => panic!("expected an error"),
    }
}

#[test]
fn closing_references_are_collected_once() {
    let cmd = repo_automation::dev_status::DoneInDevStatus::new(args(&["automation", "done-in-dev-status"]));
    let found = cmd.read_closes_issue_numbers("Closes #3", "fixes #3 and #4\nsee #8", &vec!["Closes #4, #9".to_string()]);
    let values: Vec<u64> = found.iter().map(|r| r.value).collect();
    assert_eq!(values, vec![3, 4, 9]);
}

#[test]
fn removed_blocks_leave_a_tidy_body() {
    assert_eq!(ManagedBodyBlock::remove("a\n\n\n\n\nb\n\n", "<s>", "<e>"), "a\n\nb");
    let out = ManagedBodyBlock::remove("x\n\n<s>\nold\n<e>\n\n\ny\n", "<s>", "<e>");
    assert_eq!(out, "x\n\ny");
    assert!(!out.contains("\n\n\n") && !out.ends_with('\n'));
}

#[test]
fn skip_output_value() {
    let same = repo_automation::neutralizer::PrClosureNeutralizer::new(args(&[
        "automation",
        "closure-neutralizer-skip-check",
        "--previous-body",
        "- [x] a",
        "--current-body",
        "- [ ] a",
    ]));
    assert_eq!(same.write_skip_check_output(), Ok("true".to_string()));
    let differ = repo_automation::neutralizer::PrClosureNeutralizer::new(args(&[
        "automation",
        "closure-neutralizer-skip-check",
        "--current-body",
        "Closes #1",
    ]));
    assert_eq!(differ.write_skip_check_output(), Ok("false".to_string()));
}
