use repo_automation::args::CommandArgs;
use repo_automation::github::GhExpect;
use repo_automation::sync::{AutomationSync, BranchAt, MergeAt};
use repo_automation::workflow::{Action, Reply};

fn sync(v: &[&str]) -> AutomationSync {
    AutomationSync::new(CommandArgs::new(v.iter().map(|s| s.to_string()).collect()))
}

fn gh(a: &Action) -> (Vec<String>, GhExpect) {
    match a {
        Action::Gh(c) => (c.args.clone(), c.expect),
        _ => panic!("expected a gh call"),
    }
}

fn strings(v: &[&str]) -> Vec<String> {
    v.iter().map(|s| s.to_string()).collect()
}

#[test]
fn sync_branch_is_moved_when_it_exists() {
    let s = sync(&["automation", "sync-branch", "--repo", "o/r"]);
    let (at, a) = s.create_or_update_sync_branch(None, None, BranchAt::Start, Reply::Start);
    assert_eq!(gh(&a), (strings(&["api", "repos/o/r/git/ref/heads/main", "--jq", ".object.sha"]), GhExpect::Output));
    let (at, a) = s.create_or_update_sync_branch(None, None, at, Reply::Text(Ok("abc123".to_string())));
    assert_eq!(gh(&a), (strings(&["api", "repos/o/r/git/ref/heads/sync/main-into-dev"]), GhExpect::Status));
    let (at, a) = s.create_or_update_sync_branch(None, None, at, Reply::Flag(Ok(true)));
    assert_eq!(
        gh(&a).0,
        strings(&[
            "api",
            "--method",
            "PATCH",
            "repos/o/r/git/refs/heads/sync/main-into-dev",
            "-f",
            "sha=abc123",
            "-F",
            "force=true"
        ])
    );
    let (at, a) = s.create_or_update_sync_branch(None, None, at, Reply::Text(Ok(String::new())));
    match &a {
        Action::Print(m) => assert_eq!(m, "Updated sync branch 'sync/main-into-dev' from 'main' (abc123)."),
        _ => panic!("expected a message"),
    }
    let (_, a) = s.create_or_update_sync_branch(None, None, at, Reply::Done(Ok(())));
    assert!(matches!(a, Action::Finish(Ok(()))));
}

#[test]
fn sync_branch_is_created_when_missing() {
    let s = sync(&["automation", "sync-branch", "--source-branch", "release", "--sync-branch", "sync/x"]);
    let (at, _) = s.create_or_update_sync_branch(Some("o/r".to_string()), None, BranchAt::Start, Reply::Start);
    let (at, _) = s.create_or_update_sync_branch(Some("o/r".to_string()), None, at, Reply::Text(Ok("f00".to_string())));
    let (at, a) = s.create_or_update_sync_branch(Some("o/r".to_string()), None, at, Reply::Flag(Ok(false)));
    assert_eq!(
        gh(&a).0,
        strings(&["api", "--method", "POST", "repos/o/r/git/refs", "-f", "ref=refs/heads/sync/x", "-f", "sha=f00"])
    );
    let (_, a) = s.create_or_update_sync_branch(Some("o/r".to_string()), None, at, Reply::Text(Ok(String::new())));
    match &a {
        Action::Print(m) => assert_eq!(m, "Created sync branch 'sync/x' from 'release' (f00)."),
        _ => panic!("expected a message"),
    }
}

#[test]
fn sync_branch_reports_gh_failures() {
    let s = sync(&["automation", "sync-branch", "--repo", "o/r"]);
    let (at, _) = s.create_or_update_sync_branch(None, None, BranchAt::Start, Reply::Start);
    let (_, a) = s.create_or_update_sync_branch(None, None, at, Reply::Text(Err("gh failed".to_string())));
    match a {
        Action::Finish(Err(e)) => assert_eq!(e, "gh failed"),
        _ => panic!("expected an error"),
    }
}

#[test]
fn pr_number_comes_from_flag_then_environment() {
    let flagged = sync(&["automation", "merge-sync-pull-request", "--pr-number", "#14"]);
    let p = flagged.resolve_pr_number(Some("9".to_string())).unwrap();
    assert_eq!(p.value, 14);
    assert!(p.is_pull_request());
    let bare = sync(&["automation", "merge-sync-pull-request"]);
    assert_eq!(bare.resolve_pr_number(Some("9".to_string())).unwrap().value, 9);
    for missing in [None, Some(String::new()), Some("null".to_string())] {
        assert_eq!(
            bare.resolve_pr_number(missing).unwrap_err(),
            "Missing --pr-number and PR_NUMBER"
        );
    }
}

#[test]
fn lookups_decide_the_pull_request() {
    let s = sync(&["automation"]);
    let r = repo_automation::reference::ReferenceNumber::new(7);
    let q = s.resolved_pull_request(r, true, false).unwrap();
    assert!(q.is_pull_request() && q.value == 7);
    assert_eq!(
        s.resolved_pull_request(r, false, true).unwrap_err(),
        "Reference #7 resolved to an issue, not a pull request."
    );
    assert_eq!(
        s.resolved_pull_request(r, false, false).unwrap_err(),
        "Reference #7 was not found as a pull request."
    );
}

#[test]
fn merge_asks_pulls_then_issues() {
    let s = sync(&["automation", "merge-sync-pull-request", "--repo", "o/r"]);
    let (at, a) = s.merge_sync_pull_request(None, None, Some("7".to_string()), MergeAt::Start, Reply::Start);
    assert_eq!(gh(&a), (strings(&["api", "repos/o/r/pulls/7"]), GhExpect::Status));
    let (at, a) = s.merge_sync_pull_request(None, None, Some("7".to_string()), at, Reply::Flag(Ok(false)));
    assert_eq!(gh(&a), (strings(&["api", "repos/o/r/issues/7"]), GhExpect::Status));
    let (_, a) = s.merge_sync_pull_request(None, None, Some("7".to_string()), at, Reply::Flag(Ok(true)));
    match a {
        Action::Finish(Err(e)) => assert_eq!(e, "Reference #7 resolved to an issue, not a pull request."),
        _ => panic!("expected an error"),
    }
    let (_, a) = s.merge_sync_pull_request(None, None, None, MergeAt::Start, Reply::Start);
    match a {
        Action::Finish(Err(e)) => assert_eq!(e, "Missing --pr-number and PR_NUMBER"),
        _ => panic!("expected an error"),
    }
}
