use repo_automation::conflict_guard::{
    build_conflict_block, reject_reopen_issue, DirectiveConflict, DirectiveReport, DirectiveResolution,
    PrDirectiveConflictGuard,
};

const PAYLOAD: &str = "Closes #3\nReopen #3\nFixes #5\nReopens #5\nDirective Decision: #5 => close";

fn resolved_of(r: &DirectiveReport) -> Vec<(String, String, String)> {
    r.resolved.iter().map(|e| (e.issue.clone(), e.decision.clone(), e.origin.clone())).collect()
}

fn unresolved_of(r: &DirectiveReport) -> Vec<(String, String)> {
    r.unresolved.iter().map(|e| (e.issue.clone(), e.reason.clone())).collect()
}

fn triple(a: &str, b: &str, c: &str) -> (String, String, String) {
    (a.to_string(), b.to_string(), c.to_string())
}

#[test]
fn one_source_branch_infers_from_the_latest_directive() {
    let r = PrDirectiveConflictGuard::build_report(PAYLOAD, 1).unwrap();
    assert_eq!(
        resolved_of(&r),
        vec![
            triple("#3", "reopen", "inferred from latest directive"),
            triple("#5", "close", "explicit"),
        ]
    );
    assert!(r.unresolved.is_empty());
}

#[test]
fn several_source_branches_need_explicit_decisions() {
    let r = PrDirectiveConflictGuard::build_report(PAYLOAD, 2).unwrap();
    assert_eq!(resolved_of(&r), vec![triple("#5", "close", "explicit")]);
    assert_eq!(
        unresolved_of(&r),
        vec![(
            "#3".to_string(),
            "Closes + Reopen detected across multiple source branches; explicit decision required.".to_string()
        )]
    );
}

#[test]
fn source_branches_are_counted_from_merge_commits() {
    let messages = vec![
        "Merge pull request #1 from org/feature-a".to_string(),
        "Merge pull request #2 from org/feature-b\n\nbody".to_string(),
        "Merge pull request #3 from someone/feature-a".to_string(),
        "fix: plain commit".to_string(),
    ];
    assert_eq!(PrDirectiveConflictGuard::count_source_branches(&messages), 2);
    assert_eq!(PrDirectiveConflictGuard::count_source_branches(&vec!["fix: x".to_string()]), 1);
}

#[test]
fn reopen_directives_are_rejected_for_closed_issues() {
    assert_eq!(reject_reopen_issue("Reopen #3 and reopens org/r#3.", "#3"), "Reopen rejected #3 and reopens rejected org/r#3.");
    assert_eq!(reject_reopen_issue("reopen rejected #3", "#3"), "reopen rejected #3");
    assert_eq!(reject_reopen_issue("Reopen #30", "#3"), "Reopen #30");
}

#[test]
fn conflict_block_lists_decisions_and_open_conflicts() {
    let report = DirectiveReport {
        resolved: vec![DirectiveResolution {
            issue: "#5".to_string(),
            decision: "close".to_string(),
            origin: "explicit".to_string(),
        }],
        unresolved: vec![DirectiveConflict {
            issue: "#3".to_string(),
            reason: "Closes + Reopen detected without explicit decision.".to_string(),
        }],
    };
    assert_eq!(
        build_conflict_block(&report),
        "<!-- directive-conflicts:start -->\n### Issue Directive Decisions\n\nResolved decisions:\n- #5 => close (explicit)\n\n❌ Unresolved conflicts (merge blocked):\n- #3: Closes + Reopen detected without explicit decision.\n\nRequired decision format:\n- `Directive Decision: #<issue> => close`\n- `Directive Decision: #<issue> => reopen`\n<!-- directive-conflicts:end -->"
    );
    let empty = DirectiveReport { resolved: vec![], unresolved: vec![] };
    assert_eq!(build_conflict_block(&empty), "");
    assert_eq!(
        PrDirectiveConflictGuard::update_pr_body("Body\nreopen #5", &report),
        format!("Body\nreopen rejected #5\n\n{}\n", build_conflict_block(&report))
    );
}
