use repo_automation::args::CommandArgs;
use repo_automation::autolink::{extract_parent_raw, IssueParentAutolink, Outcome, ParentRequest};

fn autolink() -> IssueParentAutolink {
    IssueParentAutolink::new(CommandArgs::new(vec!["automation".to_string(), "issue-parent-autolink".to_string()]))
}

fn validation(r: ParentRequest) -> (String, String) {
    match r {
        ParentRequest::Report(Outcome::Validation(m, h)) => (m, h),
        _ => panic!("expected a validation report"),
    }
}

const INVALID_HELP: &str = "Expected `Parent: #<issue_number>` or one of `Parent: none|base|epic`.";

#[test]
fn parent_field_is_read_without_spaces() {
    assert_eq!(extract_parent_raw("Title\n  PARENT: # 12 \nParent: #99"), "#12");
    assert_eq!(extract_parent_raw("Parent:none"), "none");
    assert_eq!(extract_parent_raw("no field here\nparent is #3"), "");
}

#[test]
fn parent_values_are_classified() {
    let a = autolink();
    let (m, h) = validation(a.classify_parent("7", ""));
    assert_eq!(m, "Missing required field `Parent:` in issue body.");
    assert!(h.starts_with("Expected format:\n\n- `Parent: #<issue_number>` for child issues"));
    match a.classify_parent("7", "None") {
        ParentRequest::NoParent(w) => assert_eq!(w, "none"),
        _ => panic!("expected no parent"),
    }
    match a.classify_parent("7", "EPIC") {
        ParentRequest::NoParent(w) => assert_eq!(w, "epic"),
        _ => panic!("expected no parent"),
    }
    assert_eq!(validation(a.classify_parent("7", "12")), ("Invalid `Parent:` value: `12`.".to_string(), INVALID_HELP.to_string()));
    assert_eq!(validation(a.classify_parent("7", "#")), ("Invalid `Parent:` value: `#`.".to_string(), INVALID_HELP.to_string()));
    assert_eq!(validation(a.classify_parent("7", "#abc")), ("Invalid `Parent:` value: `#abc`.".to_string(), INVALID_HELP.to_string()));
    assert_eq!(
        validation(a.classify_parent("7", "#7")),
        (
            "Issue cannot reference itself as parent (`Parent: #7`).".to_string(),
            "Use another parent issue number or `Parent: none`.".to_string()
        )
    );
    match a.classify_parent("7", "#12") {
        ParentRequest::Parent(p) => {
            assert_eq!(p.value, 12);
            assert!(p.is_issue());
        },
        _ => panic!("expected a parent"),
    }
}
