use repo_automation::neutralizer::{
    extract_closing_refs, mark_closure_rejected, normalize_skip_body, references_issue_in_closure_line,
    unmark_closure_rejected, PrClosureNeutralizer,
};
use repo_automation::reference::ReferenceKind;

#[test]
fn closing_references_are_read_once_each() {
    let refs = extract_closing_refs("Closes #3, fixes org/repo#7 and Closes #3\nPart of #9").unwrap();
    let mut values: Vec<u64> = refs.iter().map(|r| r.value).collect();
    values.sort();
    assert_eq!(values, vec![3, 7]);
    assert!(refs.iter().all(|r| r.kind == Some(ReferenceKind::Issue)));
}

#[test]
fn marking_inserts_rejected_once() {
    assert_eq!(
        mark_closure_rejected("Closes #12 and fixes #3", "#12").unwrap(),
        "Closes rejected #12 and fixes #3"
    );
    assert_eq!(
        mark_closure_rejected("fixes rejected #12.", "#12").unwrap(),
        "fixes rejected #12."
    );
    assert_eq!(mark_closure_rejected("Closes #123", "#12").unwrap(), "Closes #123");
    assert_eq!(
        mark_closure_rejected("FIXES\towner/repo#12", "#12").unwrap(),
        "FIXES\trejected owner/repo#12"
    );
}

#[test]
fn unmarking_restores_the_reference() {
    assert_eq!(
        unmark_closure_rejected("Fixes rejected owner/repo#12.", "#12").unwrap(),
        "Fixes owner/repo#12."
    );
    assert_eq!(unmark_closure_rejected("Closes #12", "#12").unwrap(), "Closes #12");
    let marked = mark_closure_rejected("Closes #5 now", "#5").unwrap();
    assert_eq!(unmark_closure_rejected(&marked, "#5").unwrap(), "Closes #5 now");
}

#[test]
fn closure_lines_are_found() {
    assert!(references_issue_in_closure_line("closes   rejected #5", "#5").unwrap());
    assert!(references_issue_in_closure_line("FIXES #5", "#5").unwrap());
    assert!(!references_issue_in_closure_line("mentions #5", "#5").unwrap());
}

#[test]
fn skip_check_ignores_checkbox_states_and_rejections() {
    assert_eq!(
        normalize_skip_body("- [x] task\nCloses rejected #4").unwrap(),
        "- [_] task\nCloses #4"
    );
    assert!(PrClosureNeutralizer::skip_check("- [x] task\nCloses rejected #4", "- [ ] task\nCloses #4").unwrap());
    assert!(!PrClosureNeutralizer::skip_check("Closes #4", "Closes #5").unwrap());
    assert!(PrClosureNeutralizer::skip_check("same body", "same body").unwrap());
}

#[test]
fn status_comment_lists_neutralized_issues() {
    let none = PrClosureNeutralizer::status_comment("<!-- m -->", &vec![]);
    assert_eq!(
        none,
        "<!-- m -->\n### Closure Neutralization Status\n\n✅ No non-compliant closure refs detected. No neutralization applied."
    );
    let some = PrClosureNeutralizer::status_comment("<!-- m -->", &vec!["#2".to_string(), "#5".to_string()]);
    assert_eq!(
        some,
        "<!-- m -->\n### Closure Neutralization Status\n\n⚠️ Non-compliant issue references were neutralized to prevent incorrect auto-close.\n\n- Closes rejected #2: label issue-required-missing is set on issue\n- Closes rejected #5: label issue-required-missing is set on issue\n\nHow to restore standard auto-close:\n- Fix issue required fields/title contract (if applicable).\n- Remove or adjust `Reopen #...` for issues that should close now.\n- Remove `rejected` from closure lines in PR body."
    );
}
