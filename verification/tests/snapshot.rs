use codex_advisor::snapshot::{build_snapshot, ContentItem, HistoryItem};
use codex_advisor::text::{starts_with, take_chars, trim};

fn message(role: &str, parts: &[&str]) -> HistoryItem {
    HistoryItem::Message {
        role: role.to_string(),
        content: parts
            .iter()
            .map(|p| ContentItem::InputText { text: p.to_string() })
            .collect(),
    }
}

const HEAD: &str = "Worker summary and current question:\n";
const MID: &str = "\n\nRecent conversation and results:\n";

#[test]
fn snapshot_lists_messages_and_tool_results_in_order() {
    let history = vec![
        message("user", &["Fix ", "it"]),
        HistoryItem::Other,
        HistoryItem::ToolResult { text: Some("ok".to_string()) },
        HistoryItem::ToolResult { text: None },
        message("assistant", &[]),
        HistoryItem::Message {
            role: "assistant".to_string(),
            content: vec![ContentItem::NonText, ContentItem::OutputText { text: "done".to_string() }],
        },
    ];
    let s = build_snapshot(&history, "sum");
    assert_eq!(
        s,
        format!("{HEAD}sum{MID}user: Fix it\ntool result: ok\nassistant: done\n")
    );
}

#[test]
fn snapshot_keeps_the_last_eight_entries() {
    let history: Vec<HistoryItem> =
        (0..12).map(|i| message("user", &[&format!("m{i}")])).collect();
    let s = build_snapshot(&history, "");
    let expected: String = (4..12).map(|i| format!("user: m{i}\n")).collect();
    assert_eq!(s, format!("{HEAD}{MID}{expected}"));
}

#[test]
fn snapshot_cuts_each_entry_and_the_summary() {
    let long = "x".repeat(1000);
    let history = vec![
        message("user", &[&"a".repeat(600), &"b".repeat(600)]),
        HistoryItem::ToolResult { text: Some(long.clone()) },
    ];
    let s = build_snapshot(&history, &"s".repeat(3500));
    let expected = format!(
        "{HEAD}{}{MID}user: {}{}\ntool result: {}\n",
        "s".repeat(3000),
        "a".repeat(600),
        "b".repeat(100),
        "x".repeat(700)
    );
    assert_eq!(s, expected);
}

#[test]
fn snapshot_is_cut_to_eight_thousand_characters() {
    let history: Vec<HistoryItem> =
        (0..8).map(|_| message("user", &[&"z".repeat(700)])).collect();
    let s = build_snapshot(&history, &"s".repeat(3000));
    assert_eq!(s.chars().count(), 8000);
    assert!(s.starts_with(&format!("{HEAD}{}", "s".repeat(3000))));
}

#[test]
fn text_helpers_count_characters_not_bytes() {
    assert_eq!(take_chars("héllo", 2), "hé");
    assert_eq!(take_chars("hé", 10), "hé");
    assert_eq!(trim("\u{3000}\t hi there \n\u{85}"), "hi there");
    assert_eq!(trim(" \n "), "");
    assert_eq!(trim("x"), "x");
    assert!(starts_with("codex-auto-fast", "codex-auto-"));
    assert!(!starts_with("codex", "codex-auto-"));
}
