use repo_automation::auto_closes::{ExtractAction, PrAutoClosesEnrichment};
use repo_automation::args::CommandArgs;
use repo_automation::body_block::ManagedBodyBlock;
use repo_automation::reference::ReferenceNumber;
use repo_automation::patterns::escape;

#[test]
fn remove_drops_the_block_and_extra_blank_lines() {
    let body = "Intro\n\n<!-- s -->\nmanaged\n<!-- e -->\n\nOutro\n\n";
    assert_eq!(ManagedBodyBlock::remove(body, "<!-- s -->", "<!-- e -->"), "Intro\n\nOutro");
    assert_eq!(ManagedBodyBlock::remove("a\n\n\n\nb", "[s]", "[e]"), "a\n\nb");
}

#[test]
fn replace_puts_the_block_last() {
    let body = "Intro\n<!-- s -->\nold\n<!-- e -->";
    assert_eq!(
        ManagedBodyBlock::replace(body, "<!-- s -->", "<!-- e -->", "NEW"),
        "Intro\n\nNEW"
    );
    assert_eq!(ManagedBodyBlock::replace("Intro", "<!-- s -->", "<!-- e -->", ""), "Intro");
    assert_eq!(ManagedBodyBlock::replace("\n\n", "<!-- s -->", "<!-- e -->", "NEW"), "NEW");
}

fn enrichment() -> PrAutoClosesEnrichment {
    PrAutoClosesEnrichment::new(CommandArgs::new(vec!["automation".to_string(), "auto-add-closes".to_string()]))
}

#[test]
fn issue_numbers_by_line_kind() {
    let e = enrichment();
    let text = "Closes #3 and #4\nPart of #9\nfixes #3";
    let closes: Vec<u64> = e.extract_issue_numbers(text, ExtractAction::Closes).iter().map(|r| r.value).collect();
    assert_eq!(closes, vec![3, 4]);
    let part: Vec<u64> = e.extract_issue_numbers(text, ExtractAction::PartOf).iter().map(|r| r.value).collect();
    assert_eq!(part, vec![9]);
}

#[test]
fn updated_body_appends_the_managed_closures() {
    let e = enrichment();
    let out = e.build_updated_body("Body", &vec![ReferenceNumber::new(3), ReferenceNumber::new(4)]);
    assert_eq!(
        out,
        "Body\n\n<!-- auto-closes:start -->\n### Auto-managed Issue Closures\nCloses #3\nCloses #4\n<!-- auto-closes:end -->"
    );
}

#[test]
fn escape_prefixes_meta_characters() {
    assert_eq!(escape("<!-- a.b -->"), "<!\\-\\- a\\.b \\-\\->");
    assert_eq!(escape("#12 (x)|[y]{z}^$*+?&~\\"), "\\#12 \\(x\\)\\|\\[y\\]\\{z\\}\\^\\$\\*\\+\\?\\&\\~\\\\");
    assert_eq!(escape("plain text"), "plain text");
}

#[test]
fn bodies_without_a_block_are_only_tidied() {
    assert_eq!(ManagedBodyBlock::remove("a\n\n\n\nb\n", "<s>", "<e>"), "a\n\nb");
    assert_eq!(
        repo_automation::neutralizer::mark_closure_rejected("no closing here", "#4").unwrap(),
        "no closing here"
    );
    assert_eq!(
        repo_automation::neutralizer::unmark_closure_rejected("Closes #4", "#4").unwrap(),
        "Closes #4"
    );
}
