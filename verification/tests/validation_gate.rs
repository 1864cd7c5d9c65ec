use repo_automation::breaking::{BreakingChangeAnalysis, ValidationGateState};

fn strings(v: &[&str]) -> Vec<String> {
    v.iter().map(|s| s.to_string()).collect()
}

fn record(h: &str, s: &str, b: &str) -> (String, String, String) {
    (h.to_string(), s.to_string(), b.to_string())
}

#[test]
fn breaking_markers_are_recognised() {
    assert!(BreakingChangeAnalysis::text_indicates_breaking_change("feat(api)!: drop v1"));
    assert!(BreakingChangeAnalysis::text_indicates_breaking_change("fix: x\n- [x] Breaking change"));
    assert!(BreakingChangeAnalysis::text_indicates_breaking_change("chore: x\nBREAKING CHANGE: removed"));
    assert!(!BreakingChangeAnalysis::text_indicates_breaking_change("chore: tidy"));
    assert!(!BreakingChangeAnalysis::text_indicates_breaking_change("feat!: x\n\nNo breaking change here"));
    assert!(!BreakingChangeAnalysis::text_indicates_breaking_change("chore: x\nfeat!: y"));
    assert!(!BreakingChangeAnalysis::text_indicates_breaking_change("- [ ] Breaking change"));
}

#[test]
fn scopes_from_subjects_and_paths() {
    assert_eq!(
        BreakingChangeAnalysis::extract_breaking_scopes_from_subject("feat(api,,core)!: x"),
        strings(&["api", "core"])
    );
    assert!(BreakingChangeAnalysis::extract_breaking_scopes_from_subject("feat(api, core)!: x").is_empty());
    assert!(BreakingChangeAnalysis::extract_breaking_scopes_from_subject("feat!: x").is_empty());
    assert_eq!(BreakingChangeAnalysis::infer_scope_from_path("crates/foo/src/lib.rs"), Some("foo".to_string()));
    assert_eq!(BreakingChangeAnalysis::infer_scope_from_path("tools/bar/Cargo.toml"), Some("bar".to_string()));
    assert_eq!(BreakingChangeAnalysis::infer_scope_from_path("README.md"), None);
    assert!(BreakingChangeAnalysis::is_root_crate_file("src/main.rs"));
    assert!(BreakingChangeAnalysis::is_root_crate_file("Cargo.lock"));
    assert!(BreakingChangeAnalysis::is_root_crate_file("rust-toolchain.toml"));
    assert!(!BreakingChangeAnalysis::is_root_crate_file("docs/x.md"));
    assert_eq!(
        BreakingChangeAnalysis::infer_scopes_from_files(&strings(&["src/a.rs", "crates/foo/src/x.rs", "docs/readme.md"])),
        strings(&["repo_base_template_scripting_public", "foo"])
    );
}

#[test]
fn analysis_of_commit_records() {
    let records = vec![
        record("abcdef123456", "feat(api)!: drop", ""),
        record("1234567890", "fix: ok", ""),
        record("fedcba987654", "feat(api,db)!: more", ""),
        record("abcdef1999", "refactor: x", "BREAKING CHANGE: y"),
    ];
    let a = BreakingChangeAnalysis::from_commit_records(&records);
    assert!(a.is_breaking());
    assert_eq!(a.scopes().clone(), strings(&["api", "db"]));
    assert_eq!(a.commits().clone(), strings(&["abcdef1", "fedcba9"]));
}

#[test]
fn scopes_are_inferred_when_subjects_name_none() {
    let a = BreakingChangeAnalysis::from_commit_records(&vec![record("0123456789", "feat!: x", "")]);
    assert!(a.is_breaking() && a.scopes().is_empty());
    let a = a.with_inferred_scopes(&strings(&["crates/zeta/src/a.rs", "src/lib.rs", "crates/alpha/Cargo.toml", "crates/zeta/src/b.rs"]));
    assert_eq!(a.scopes().clone(), strings(&["alpha", "repo_base_template_scripting_public", "zeta"]));
}

fn breaking() -> ValidationGateState {
    ValidationGateState::new(BreakingChangeAnalysis {
        is_breaking: true,
        scopes: strings(&["api", "db"]),
        commits: strings(&["abcdef1", "fedcba9"]),
    })
}

#[test]
fn gate_section_renders_breaking_and_clean_analyses() {
    assert_eq!(
        breaking().render_section(),
        "### Validation Gate\n\n- Breaking change\n- Breaking scope:\n  - crate(s): `api`, `db`\n  - source commit(s): `abcdef1`, `fedcba9`"
    );
    let none = ValidationGateState::new(BreakingChangeAnalysis { is_breaking: false, scopes: vec![], commits: vec![] });
    assert_eq!(none.render_section(), "### Validation Gate\n\n- No breaking change");
    let unknown = ValidationGateState::new(BreakingChangeAnalysis { is_breaking: true, scopes: vec![], commits: vec![] });
    assert!(unknown.render_section().ends_with("  - crate(s): unknown\n  - source commit(s): unknown"));
}

#[test]
fn gate_replacement_and_refresh_twice() {
    let body = "### Description\n\nx\n\n### Validation Gate\n\nold\n### Issue Outcomes\n\nrest";
    let g = breaking();
    let once = g.replace_in_body(body);
    assert_eq!(once, format!("### Description\n\nx\n\n{}\n### Issue Outcomes\n\nrest", g.render_section()));
    assert_eq!(g.replace_in_body(&once), once);
}

#[test]
fn gate_is_appended_without_the_outcomes_heading() {
    let g = breaking();
    assert_eq!(g.replace_in_body("Body text\n\n\n"), format!("Body text\n\n{}", g.render_section()));
    assert_eq!(g.replace_in_body("\n"), g.render_section());
}
