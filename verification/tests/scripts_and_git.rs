use repo_automation::args::CommandArgs;
use repo_automation::git::GitCli;
use repo_automation::json::{get_member, graphql_error_messages, graphql_string, json_string, json_u64, JsonNumber, JsonValue};
use repo_automation::scripts::{is_workflow_file, join_path, ScriptsIntegrity};
use repo_automation::workflow::RunOutput;

fn integrity(worktree: Option<&str>) -> ScriptsIntegrity {
    let mut a = vec!["automation".to_string(), "scripts-integrity".to_string()];
    if let Some(w) = worktree {
        a.push("--worktree".to_string());
        a.push(w.to_string());
    }
    ScriptsIntegrity::new(CommandArgs::new(a))
}

#[test]
fn workflow_roots_and_files() {
    assert_eq!(
        integrity(None).workflow_roots(),
        vec!["./repository_elements/.github/workflows".to_string(), "./.github/workflows".to_string()]
    );
    assert_eq!(
        integrity(Some("/repo/")).workflow_roots(),
        vec!["/repo/repository_elements/.github/workflows".to_string(), "/repo/.github/workflows".to_string()]
    );
    assert_eq!(join_path("", "a"), "a");
    assert!(is_workflow_file("w/ci.yml"));
    assert!(is_workflow_file("w/ci.yaml"));
    assert!(!is_workflow_file("w/ci.yml.bak"));
    assert!(!is_workflow_file("w/.yml/readme"));
    let paths = vec!["a/x.yml".to_string(), "a/y.txt".to_string(), "a/b/z.yaml".to_string()];
    assert_eq!(
        integrity(None).collect_workflow_files(&paths),
        vec!["a/x.yml".to_string(), "a/b/z.yaml".to_string()]
    );
}

#[test]
fn integrity_reports_each_failure() {
    let content = "on: push\nrun: echo hi\nrun: |\n  uses: scripts/automation/x\nrun: cargo test\nrun: grep x\n";
    let files = vec![("p.yml".to_string(), Ok(content.to_string()))];
    let expected = "Workflow integrity checks failed:\n\
p.yml:2 uses non-Rust run command 'echo hi'\n\
p.yml:3 uses multiline shell run blocks\n\
p.yml:3 uses non-Rust run command '|'\n\
p.yml:4 still references scripts/automation\n\
p.yml:6 uses non-Rust run command 'grep x'\n\
p.yml:6 contains forbidden shell tooling 'run: grep x'";
    assert_eq!(integrity(None).run(&files), Err(expected.to_string()));
}

#[test]
fn integrity_passes_clean_files_and_reports_read_errors() {
    let clean = vec![("a.yml".to_string(), Ok("jobs:\n  run: cargo run -- automation x\n".to_string()))];
    assert_eq!(integrity(None).run(&clean), Ok("Workflow integrity checks passed.".to_string()));
    assert_eq!(
        integrity(None).run(&vec![]),
        Err("No workflow templates found to validate.".to_string())
    );
    let unreadable = vec![
        ("a.yml".to_string(), Ok("run: bash x".to_string())),
        ("b.yml".to_string(), Err("Failed to read workflow file 'b.yml': denied".to_string())),
    ];
    assert_eq!(
        integrity(None).run(&unreadable),
        Err("Failed to read workflow file 'b.yml': denied".to_string())
    );
}

#[test]
fn git_log_records_and_diff_files() {
    let git = GitCli;
    let out = RunOutput {
        success: true,
        stdout: "abc\x1ffeat: x\x1fbody line\n\x1e\ndef\x1ffix: y\x1f\x1e\n".to_string(),
        stderr: String::new(),
    };
    assert_eq!(
        git.log_commit_records(&out),
        vec![
            ("abc".to_string(), "feat: x".to_string(), "body line".to_string()),
            ("def".to_string(), "fix: y".to_string(), String::new()),
        ]
    );
    let failed = RunOutput { success: false, stdout: "abc\x1fx\x1e".to_string(), stderr: String::new() };
    assert!(git.log_commit_records(&failed).is_empty());
    let diff = RunOutput { success: true, stdout: " a.rs \n\nb.md\n".to_string(), stderr: String::new() };
    assert_eq!(git.diff_files(&diff), vec!["a.rs".to_string(), "b.md".to_string()]);
    assert_eq!(
        git.fetch_result(&RunOutput { success: false, stdout: String::new(), stderr: " no remote \n".to_string() }),
        Err("git fetch failed: no remote".to_string())
    );
    let call = git.rustfmt_files("/w", &vec![], true);
    assert!(call.is_none());
}

fn s(v: &str) -> JsonValue {
    JsonValue::Str(v.to_string())
}

fn obj(m: Vec<(&str, JsonValue)>) -> JsonValue {
    JsonValue::Object(m.into_iter().map(|(k, v)| (k.to_string(), v)).collect())
}

#[test]
fn json_lookups() {
    let v = obj(vec![
        ("id", JsonValue::Number(JsonNumber { text: "12".to_string(), unsigned: Some(12) })),
        ("body", s("hello")),
        ("data", obj(vec![("repository", obj(vec![("id", s("R_1"))]))])),
    ]);
    assert_eq!(json_string(&v, "body"), "hello");
    assert_eq!(json_string(&v, "missing"), "");
    assert_eq!(json_u64(&v, "id"), Some(12));
    assert_eq!(json_u64(&v, "body"), None);
    assert!(get_member(&v, "data").is_some());
    assert_eq!(graphql_string(&v, &vec!["data", "repository", "id"]), "R_1");
    assert_eq!(graphql_string(&v, &vec!["data", "nothing"]), "");
    assert!(graphql_error_messages(&v).is_none());
    let errs = obj(vec![(
        "errors",
        JsonValue::Array(vec![obj(vec![("message", s("bad one"))]), obj(vec![("message", s("bad two"))])]),
    )]);
    assert_eq!(graphql_error_messages(&errs), Some("bad one | bad two".to_string()));
}
