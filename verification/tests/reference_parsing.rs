use repo_automation::reference::{ReferenceInput, ReferenceKind, ReferenceNumber};

#[test]
fn parse_accepts_hash_and_spaces() {
    let r = ReferenceNumber::parse("  ##42 ").unwrap();
    assert_eq!(r.value, 42);
    assert_eq!(r.kind, None);
    assert_eq!(r.as_string(), "42");
    assert_eq!(r.show_number(), "#42");
}

#[test]
fn parse_rejects_non_numbers() {
    assert!(ReferenceNumber::parse("").is_none());
    assert!(ReferenceNumber::parse("#").is_none());
    assert!(ReferenceNumber::parse("#12a").is_none());
    assert!(ReferenceNumber::parse("-3").is_none());
    assert!(ReferenceNumber::parse("99999999999999999999").is_none());
    assert_eq!(ReferenceNumber::parse("+7").unwrap().value, 7);
}

#[test]
fn find_in_text_reads_references() {
    let found = ReferenceInput::find_in_text("Closes #12 and part of #7, see 30", Some(ReferenceKind::Issue));
    let values: Vec<u64> = found.iter().map(|r| r.value).collect();
    assert_eq!(values, vec![12, 7, 30]);
    assert!(found.iter().all(|r| r.is_issue()));
}

#[test]
fn find_in_text_ignores_word_suffixes() {
    let found = ReferenceInput::find_in_text("abc12 x#5y", None);
    assert!(found.is_empty());
}

#[test]
fn show_number_reads_back() {
    for v in [0u64, 7, 42, 1_000_000, u64::MAX] {
        let shown = ReferenceNumber::new(v).show_number();
        assert_eq!(shown, format!("#{v}"));
        let back = ReferenceNumber::parse(&shown).unwrap();
        assert_eq!(back.value, v);
        assert_eq!(back.kind, None);
    }
}

#[test]
fn kinds_are_kept_and_reported() {
    let r = ReferenceNumber::new(5).with_kind(ReferenceKind::PullRequest);
    assert!(r.is_pull_request());
    assert!(!r.is_issue());
    let plain = ReferenceNumber::new(5);
    assert!(!plain.is_issue() && !plain.is_pull_request());
}
