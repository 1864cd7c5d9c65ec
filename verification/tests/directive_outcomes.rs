use repo_automation::directives::{sort_by_issue_number, PrDirective};
use repo_automation::pr_body::PrBodyContractSync;

fn strings(v: &[&str]) -> Vec<String> {
    v.iter().map(|s| s.to_string()).collect()
}

#[test]
fn parse_tracks_closing_reopening_and_cancels() {
    let p = PrDirective::parse(
        "Closes #3\nFixes #1\nReopen #3\nDirective Decision: #3 => Close\ncancel-closes #1\nCloses rejected #9\n",
    )
    .unwrap();
    assert_eq!(p.closing, strings(&["#3"]));
    assert_eq!(p.reopening, strings(&["#3"]));
    assert_eq!(p.explicit, vec![("#3".to_string(), "close".to_string())]);
}

#[test]
fn parse_keeps_each_issue_once() {
    let p = PrDirective::parse("closes #4, fixes #4 and Closes #4; reopens #8 reopen #8").unwrap();
    assert_eq!(p.closing, strings(&["#4"]));
    assert_eq!(p.reopening, strings(&["#8"]));
    assert!(p.explicit.is_empty());
}

#[test]
fn cancel_withdraws_a_closing_request() {
    let p = PrDirective::parse("Fixes #12\nsomething\nCancel-Closes #12").unwrap();
    assert!(p.closing.is_empty());
}

#[test]
fn sorting_goes_by_number() {
    assert_eq!(
        sort_by_issue_number(strings(&["#10", "#2", "#7"])),
        strings(&["#2", "#7", "#10"])
    );
}

#[test]
fn outcomes_with_a_resolved_conflict() {
    let out = PrBodyContractSync::build_issue_outcomes_section(
        "Closes #3\nReopen #3\nCloses #10\nReopen #2\nDirective Decision: #3 => reopen",
    )
    .unwrap();
    let expected = "#### Category 1: Issues Without Conflicts\n\n##### Closes/Fixes\n\n- Closes #10\n\n##### Reopened\n\n- Reopen #2\n\n#### Category 2: Issues With Conflicts\n\n##### Auto-resolved\n\n- Reopen #3 - Resolved via directive decision => reopen.\n\n##### Not resolved\n\n- No unresolved directive conflicts.";
    assert_eq!(out, expected);
}

#[test]
fn outcomes_with_an_unresolved_conflict() {
    let out = PrBodyContractSync::build_issue_outcomes_section("Fixes #4 reopens #4").unwrap();
    let expected = "#### Category 1: Issues Without Conflicts\n\n##### Closes/Fixes\n\n- No resolved issues detected via GitHub references or PR body keywords.\n\n##### Reopened\n\n- No reopened issues detected.\n\n#### Category 2: Issues With Conflicts\n\n##### Auto-resolved\n\n- No auto-resolved directive conflicts.\n\n##### Not resolved\n\n- #4: Closes + Reopen detected without explicit decision.";
    assert_eq!(out, expected);
}
