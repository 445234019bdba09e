use gitnote_api::error::AppError;
use gitnote_api::history::{commit_time, commit_touches_file, CommitVisit, HistoryWalk};
use gitnote_api::models::{
    default_limit, CommitInfo, Page, PageListResponse, PageSummary, Timestamp, UpdatePageRequest,
};
use gitnote_api::service::{
    creation_message, deletion_message, file_text, found, parse_revision, resolve_update,
    restore_message, restore_request, update_content, update_message, HISTORY_LIMIT,
};

fn summary() -> PageSummary {
    PageSummary {
        id: "id".to_string(),
        title: "Old".to_string(),
        tags: vec!["t".to_string()],
        parent_id: None,
        icon: "i".to_string(),
        created_at: Timestamp::from_unix(0, 1).unwrap(),
        updated_at: Timestamp::from_unix(0, 2).unwrap(),
    }
}

fn info(n: u8) -> CommitInfo {
    CommitInfo {
        oid: format!("{n}"),
        message: String::new(),
        author: "unknown".to_string(),
        timestamp: Timestamp::epoch(),
    }
}

#[test]
fn commit_messages() {
    assert_eq!(creation_message("Test Page"), "create: Test Page");
    assert_eq!(update_message("Updated"), "update: Updated");
    assert_eq!(deletion_message("Updated"), "delete: Updated");
    assert_eq!(
        restore_message("Page", "0123456789abcdef0123456789abcdef01234567"),
        "restore: Page to 01234567"
    );
}

#[test]
fn resolve_update_prefers_the_request() {
    let req = UpdatePageRequest {
        title: Some("New".to_string()),
        content: None,
        tags: None,
        parent_id: None,
        icon: Some("j".to_string()),
    };
    let d = resolve_update(&summary(), &req);
    assert_eq!(d.title, "New");
    assert_eq!(d.tags, vec!["t".to_string()]);
    assert_eq!(d.icon, "j");
}

#[test]
fn update_content_choices() {
    assert_eq!(update_content(&Some("given".to_string()), None), "given");
    assert_eq!(update_content(&None, Some("---\na\n---\n\nstored".to_string())), "stored");
    assert_eq!(update_content(&None, None), "");
}

#[test]
fn restore_request_only_sets_content() {
    let r = restore_request("c".to_string());
    assert_eq!(r.content.as_deref(), Some("c"));
    assert!(r.title.is_none() && r.tags.is_none() && r.parent_id.is_none() && r.icon.is_none());
}

#[test]
fn parse_revision_reads_hex() {
    let bytes = parse_revision("0123456789abcdefABCDEF0123456789abcdef01").unwrap();
    assert_eq!(bytes.len(), 20);
    assert_eq!(bytes[0], 0x01);
    assert_eq!(bytes[5], 0xab);
    assert_eq!(bytes[8], 0xab);
    assert_eq!(bytes[9], 0xcd);
    let short = parse_revision("a").unwrap();
    assert_eq!(short[0], 0xa0);
    assert!(short[1..].iter().all(|b| *b == 0));
}

#[test]
fn parse_revision_refuses_bad_text() {
    assert_eq!(
        parse_revision(""),
        Err(AppError::Internal("unable to parse OID - too short; class=Invalid (3)".to_string()))
    );
    assert_eq!(
        parse_revision("xyz"),
        Err(AppError::Internal(
            "unable to parse OID - contains invalid characters; class=Invalid (3)".to_string()
        ))
    );
    assert_eq!(
        parse_revision(&"a".repeat(41)),
        Err(AppError::Internal("unable to parse OID - too long; class=Invalid (3)".to_string()))
    );
}

#[test]
fn file_text_decodes_utf8() {
    assert_eq!(file_text("héllo".as_bytes()), Ok("héllo".to_string()));
    assert_eq!(
        file_text(&[b'a', 0xff, 0xfe]),
        Err(AppError::Internal("invalid utf-8 sequence of 1 bytes from index 1".to_string()))
    );
}

#[test]
fn found_or_not_found() {
    assert_eq!(found(Some(3)), Ok(3));
    assert_eq!(found::<u8>(None), Err(AppError::NotFound));
}

#[test]
fn touches_file_cases() {
    assert!(commit_touches_file(&Some(vec![1]), &None));
    assert!(commit_touches_file(&None, &Some(vec![1])));
    assert!(!commit_touches_file(&None, &None));
    assert!(!commit_touches_file(&Some(vec![1, 2]), &Some(vec![1, 2])));
    assert!(commit_touches_file(&Some(vec![1, 2]), &Some(vec![1, 3])));
}

#[test]
fn history_keeps_the_first_touching_commits_up_to_the_limit() {
    let mut walk = HistoryWalk::new(2);
    let mut seen = 0u8;
    let visits = vec![
        (Some(vec![3u8]), Some(vec![2u8])),
        (Some(vec![2u8]), Some(vec![2u8])),
        (None, None),
        (Some(vec![2u8]), None),
        (Some(vec![1u8]), None),
    ];
    for (file, parent) in visits {
        if walk.is_full() {
            break;
        }
        seen += 1;
        walk.visit(CommitVisit { file_blob: file, parent_file_blob: parent, info: info(seen) });
    }
    let commits = walk.into_commits();
    assert_eq!(seen, 4);
    let oids: Vec<String> = commits.into_iter().map(|c| c.oid).collect();
    assert_eq!(oids, vec!["1".to_string(), "4".to_string()]);
}

#[test]
fn zero_limit_history_is_full_at_once() {
    assert!(HistoryWalk::new(0).is_full());
    assert!(HistoryWalk::new(0).into_commits().is_empty());
}

#[test]
fn commit_times() {
    assert_eq!(commit_time(12), Timestamp::from_unix(12, 0).unwrap());
    assert_eq!(commit_time(-1).secs(), -1);
    let far = commit_time(10_000_000_000);
    assert_eq!((far.secs(), far.subsec_nanos()), (10_000_000_000, 0));
    assert_eq!(far.to_rfc3339(), "2286-11-20T17:46:40+00:00");
    assert_eq!(commit_time(i64::MAX), Timestamp::epoch());
    assert_eq!(Timestamp::epoch().secs(), 0);
}

#[test]
fn constants_and_listing() {
    assert_eq!(default_limit(), 20);
    assert_eq!(HISTORY_LIMIT, 50);
    let list = PageListResponse::new(vec![summary(), summary()]);
    assert_eq!(list.total, 2);
    let page = Page::from_summary(summary(), "body".to_string());
    assert_eq!(page.content, "body");
    assert_eq!(page.title, "Old");
    assert_eq!(page.updated_at.subsec_nanos(), 2);
}
