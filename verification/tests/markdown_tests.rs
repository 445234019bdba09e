use gitnote_api::history::{page_file_name, CommitVisit, HistoryWalk};
use gitnote_api::markdown::{build_markdown, extract_content};
use gitnote_api::models::{CommitInfo, Timestamp};

fn info(oid: &str) -> CommitInfo {
    CommitInfo {
        oid: oid.to_string(),
        message: format!("commit {oid}"),
        author: "GitNote".to_string(),
        timestamp: Timestamp::epoch(),
    }
}

#[test]
fn page_file_round_trip_and_history() {
    // Write
    let content = build_markdown("page1", "Test Page", &["tag1".into()], "📝", "Hello world");
    assert!(content.contains("Hello world"));
    assert!(content.contains("title: \"Test Page\""));

    // Extract content
    let body = extract_content(&content);
    assert_eq!(body, "Hello world");

    // Update
    let content2 = build_markdown("page1", "Updated", &[], "📝", "Updated body");
    assert!(content2.contains("Updated body"));

    // History: the create and the update commit both touched page1.md
    let mut walk = HistoryWalk::new(10);
    walk.visit(CommitVisit {
        file_blob: Some(vec![2u8; 20]),
        parent_file_blob: Some(vec![1u8; 20]),
        info: info("b"),
    });
    assert!(!walk.is_full());
    walk.visit(CommitVisit { file_blob: Some(vec![1u8; 20]), parent_file_blob: None, info: info("a") });
    let history = walk.into_commits();
    assert_eq!(history.len(), 2);

    // Delete: the file is gone from the tree, and that commit touched it too
    let mut walk = HistoryWalk::new(10);
    walk.visit(CommitVisit { file_blob: None, parent_file_blob: Some(vec![2u8; 20]), info: info("c") });
    assert_eq!(walk.into_commits().len(), 1);
    assert_eq!(page_file_name("page1"), "page1.md");
}

#[test]
fn build_markdown_exact_document() {
    let doc = build_markdown("p", "T", &["a".to_string(), "b\"c".to_string()], "i", "body");
    assert_eq!(doc, "---\nid: \"p\"\ntitle: \"T\"\ntags: [\"a\", \"b\\\"c\"]\nicon: \"i\"\n---\n\nbody");
}

#[test]
fn build_markdown_without_tags() {
    let doc = build_markdown("p", "T", &[], "", "");
    assert_eq!(doc, "---\nid: \"p\"\ntitle: \"T\"\ntags: []\nicon: \"\"\n---\n\n");
}

#[test]
fn build_markdown_escapes_every_quote() {
    let doc = build_markdown("p", "T", &["\"\"x\"".to_string()], "i", "c");
    assert!(doc.contains("tags: [\"\\\"\\\"x\\\"\"]\n"));
}

#[test]
fn extract_content_without_front_matter_is_the_text() {
    assert_eq!(extract_content("plain text"), "plain text");
    assert_eq!(extract_content(""), "");
    assert_eq!(extract_content("--- only one marker"), "--- only one marker");
    assert_eq!(extract_content("-----"), "-----");
}

#[test]
fn extract_content_drops_leading_newlines_only() {
    assert_eq!(extract_content("---\nx\n---\n\n\n  body\n\n"), "  body\n\n");
    assert_eq!(extract_content("------x"), "x");
    assert_eq!(extract_content("---a---"), "");
}

#[test]
fn extract_content_stops_at_first_closing_marker() {
    assert_eq!(extract_content("---\na: 1\n---\nbody --- more"), "body --- more");
}

#[test]
fn extract_content_keeps_unicode() {
    let doc = build_markdown("id", "Titre été", &["ü".to_string()], "📝", "\n\nCafé ☕");
    assert_eq!(extract_content(&doc), "Café ☕");
}

#[test]
fn build_markdown_escapes_quotes_in_every_field() {
    let doc = build_markdown("i\"d", "say \"hi\"", &[], "\"", "c");
    assert_eq!(
        doc,
        "---\nid: \"i\\\"d\"\ntitle: \"say \\\"hi\\\"\"\ntags: []\nicon: \"\\\"\"\n---\n\nc"
    );
    assert_eq!(extract_content(&doc), "c");
}
