use gitnote_api::error::AppError;
use gitnote_api::models::{CreatePageRequest, Timestamp, UpdatePageRequest};
use gitnote_api::store::{
    new_page_row, new_page_summary, plan_update, soft_delete_outcome, summary_from_row, CurrentPage,
    StoredPage,
};

fn request() -> CreatePageRequest {
    CreatePageRequest {
        title: "Title".to_string(),
        content: "Body".to_string(),
        tags: vec!["a".to_string(), "b".to_string()],
        parent_id: Some("parent".to_string()),
        icon: "📝".to_string(),
    }
}

fn ts(secs: i64, nanos: u32) -> Timestamp {
    Timestamp::from_unix(secs, nanos).unwrap()
}

fn now() -> Timestamp {
    ts(1_700_000_000, 123_000_000)
}

fn empty_update() -> UpdatePageRequest {
    UpdatePageRequest { title: None, content: None, tags: None, parent_id: None, icon: None }
}

fn current() -> CurrentPage {
    CurrentPage {
        title: "Old".to_string(),
        tags_json: "[\"x\"]".to_string(),
        parent_id: Some("p0".to_string()),
        icon: "i0".to_string(),
        created_at: "2023-11-14T22:13:20+00:00".to_string(),
    }
}

#[test]
fn new_row_columns() {
    let row = new_page_row("id1", &request(), "hash", now());
    assert_eq!(row.id, "id1");
    assert_eq!(row.title, "Title");
    assert_eq!(row.tags_json, "[\"a\",\"b\"]");
    assert_eq!(row.parent_id.as_deref(), Some("parent"));
    assert_eq!(row.icon, "📝");
    assert_eq!(row.content_hash, "hash");
    assert_eq!(row.created_at, "2023-11-14T22:13:20.123+00:00");
    assert_eq!(row.updated_at, row.created_at);
}

#[test]
fn epoch_is_written_without_fraction() {
    let row = new_page_row("id1", &request(), "", ts(0, 0));
    assert_eq!(row.created_at, "1970-01-01T00:00:00+00:00");
}

#[test]
fn created_page_reads_back() {
    let row = new_page_row("id1", &request(), "hash", now());
    let stored = StoredPage {
        id: row.id.clone(),
        title: row.title.clone(),
        tags_json: row.tags_json.clone(),
        parent_id: row.parent_id.clone(),
        icon: row.icon.clone(),
        created_at: row.created_at.clone(),
        updated_at: row.updated_at.clone(),
    };
    let read = summary_from_row(stored).unwrap();
    let made = new_page_summary("id1", &request(), now());
    assert_eq!(read.id, made.id);
    assert_eq!(read.title, made.title);
    assert_eq!(read.tags, made.tags);
    assert_eq!(read.parent_id, made.parent_id);
    assert_eq!(read.icon, made.icon);
    assert_eq!(read.created_at, now());
    assert_eq!(read.updated_at, now());
}

#[test]
fn unreadable_tags_read_as_none() {
    let stored = StoredPage {
        id: "i".to_string(),
        title: "t".to_string(),
        tags_json: "not json".to_string(),
        parent_id: None,
        icon: String::new(),
        created_at: "1970-01-01T00:00:01Z".to_string(),
        updated_at: "1970-01-01T01:00:00+01:00".to_string(),
    };
    let s = summary_from_row(stored).unwrap();
    assert!(s.tags.is_empty());
    assert_eq!(s.created_at, ts(1, 0));
    assert_eq!(s.updated_at, ts(0, 0));
}

#[test]
fn unreadable_time_gives_none() {
    let stored = StoredPage {
        id: "i".to_string(),
        title: "t".to_string(),
        tags_json: "[]".to_string(),
        parent_id: None,
        icon: String::new(),
        created_at: "yesterday".to_string(),
        updated_at: "1970-01-01T00:00:00Z".to_string(),
    };
    assert!(summary_from_row(stored).is_none());
}

#[test]
fn update_with_nothing_keeps_the_page() {
    let u = plan_update("id1", &current(), &empty_update(), "h", now()).unwrap();
    assert_eq!(u.title, "Old");
    assert_eq!(u.tags_json, "[\"x\"]");
    assert_eq!(u.parent_id.as_deref(), Some("p0"));
    assert_eq!(u.icon, "i0");
    assert_eq!(u.updated_at, "2023-11-14T22:13:20.123+00:00");
    assert_eq!(u.summary.id, "id1");
    assert_eq!(u.summary.tags, vec!["x".to_string()]);
    assert_eq!(u.summary.created_at, ts(1_700_000_000, 0));
    assert_eq!(u.summary.updated_at, now());
}

#[test]
fn update_replaces_named_fields() {
    let req = UpdatePageRequest {
        title: Some("New".to_string()),
        content: Some("c".to_string()),
        tags: Some(vec!["y".to_string(), "z".to_string()]),
        parent_id: Some(None),
        icon: Some("i1".to_string()),
    };
    let u = plan_update("id1", &current(), &req, "h", now()).unwrap();
    assert_eq!(u.title, "New");
    assert_eq!(u.tags_json, "[\"y\",\"z\"]");
    assert_eq!(u.parent_id, None);
    assert_eq!(u.icon, "i1");
    assert_eq!(u.summary.tags, vec!["y".to_string(), "z".to_string()]);
    assert_eq!(u.summary.parent_id, None);
}

#[test]
fn update_of_page_with_bad_creation_time_is_refused() {
    let mut cur = current();
    cur.created_at = "garbage".to_string();
    assert!(plan_update("id1", &cur, &empty_update(), "h", now()).is_none());
}

#[test]
fn soft_delete_of_nothing_is_not_found() {
    assert_eq!(soft_delete_outcome(0), Err(AppError::NotFound));
    assert_eq!(soft_delete_outcome(1), Ok(()));
}

#[test]
fn updated_page_reads_back() {
    let req = UpdatePageRequest {
        title: Some("New".to_string()),
        content: None,
        tags: Some(vec!["q\"uote".to_string()]),
        parent_id: None,
        icon: None,
    };
    let cur = current();
    let u = plan_update("id1", &cur, &req, "h", now()).unwrap();
    let stored = StoredPage {
        id: "id1".to_string(),
        title: u.title.clone(),
        tags_json: u.tags_json.clone(),
        parent_id: u.parent_id.clone(),
        icon: u.icon.clone(),
        created_at: cur.created_at.clone(),
        updated_at: u.updated_at.clone(),
    };
    let read = summary_from_row(stored).unwrap();
    assert_eq!(read.title, u.summary.title);
    assert_eq!(read.tags, vec!["q\"uote".to_string()]);
    assert_eq!(read.tags, u.summary.tags);
    assert_eq!(read.parent_id, u.summary.parent_id);
    assert_eq!(read.icon, u.summary.icon);
    assert_eq!(read.created_at, u.summary.created_at);
    assert_eq!(read.updated_at, u.summary.updated_at);
}

#[test]
fn times_far_from_now_are_kept() {
    let far = ts(10_000_000_000, 5);
    assert_eq!(far.to_rfc3339(), "2286-11-20T17:46:40.000000005+00:00");
    let stored = StoredPage {
        id: "i".to_string(),
        title: "t".to_string(),
        tags_json: "[]".to_string(),
        parent_id: None,
        icon: String::new(),
        created_at: far.to_rfc3339(),
        updated_at: "1500-01-01T00:00:00Z".to_string(),
    };
    let s = summary_from_row(stored).unwrap();
    assert_eq!(s.created_at, far);
    assert_eq!(s.updated_at.secs(), -14_831_769_600);
}

#[test]
fn timestamps_outside_chrono_are_refused() {
    assert!(Timestamp::from_unix(i64::MAX, 0).is_none());
    assert!(Timestamp::from_unix(0, 2_000_000_000).is_none());
    assert!(Timestamp::from_unix(59, 1_500_000_000).is_some());
    assert!(Timestamp::from_unix(58, 1_500_000_000).is_none());
}

#[test]
fn five_digit_years_are_written_with_a_sign() {
    assert_eq!(ts(253_402_300_800, 0).to_rfc3339(), "+10000-01-01T00:00:00+00:00");
}

#[test]
fn tags_column_escapes_as_json() {
    let mut req = request();
    req.tags = vec!["a\"b\\c\n\t\u{1}\u{7f}é".to_string(), String::new()];
    let row = new_page_row("id1", &req, "", now());
    assert_eq!(row.tags_json, "[\"a\\\"b\\\\c\\n\\t\\u0001\u{7f}é\",\"\"]");
    req.tags = vec![];
    assert_eq!(new_page_row("id1", &req, "", now()).tags_json, "[]");
}
