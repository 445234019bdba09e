use gitnote_api::lifecycle::plan_create;
use gitnote_api::markdown::{build_markdown, extract_content};
use gitnote_api::models::{CreatePageRequest, Page, PageSummary, Timestamp, UpdatePageRequest};
use gitnote_api::service::{resolve_update, update_content};
use gitnote_api::store::{plan_update, summary_from_row, CurrentPage, PageRow, StoredPage};

fn stored(row: &PageRow) -> StoredPage {
    StoredPage {
        id: row.id.clone(),
        title: row.title.clone(),
        tags_json: row.tags_json.clone(),
        parent_id: row.parent_id.clone(),
        icon: row.icon.clone(),
        created_at: row.created_at.clone(),
        updated_at: row.updated_at.clone(),
    }
}

fn read(row: StoredPage, file: &str) -> Page {
    Page::from_summary(summary_from_row(row).unwrap(), extract_content(file).to_string())
}

fn same(a: &Page, b: &Page) {
    assert_eq!(a.id, b.id);
    assert_eq!(a.title, b.title);
    assert_eq!(a.content, b.content);
    assert_eq!(a.tags, b.tags);
    assert_eq!(a.parent_id, b.parent_id);
    assert_eq!(a.icon, b.icon);
    assert_eq!(a.created_at, b.created_at);
}

fn request() -> CreatePageRequest {
    CreatePageRequest {
        title: "A \"quoted\" title".to_string(),
        content: "Body\n\nwith lines".to_string(),
        tags: vec!["x".to_string(), "y\"z".to_string()],
        parent_id: Some("root".to_string()),
        icon: "📝".to_string(),
    }
}

fn t0() -> Timestamp {
    Timestamp::from_unix(1_700_000_000, 1).unwrap()
}

fn t1() -> Timestamp {
    Timestamp::from_unix(1_700_000_100, 0).unwrap()
}

#[test]
fn created_page_reads_back_in_every_field() {
    let c = plan_create("id-1", &request(), "", t0());
    assert_eq!(c.message, "create: A \"quoted\" title");
    let back = read(stored(&c.row), &c.file);
    same(&back, &c.page);
    assert_eq!(back.updated_at, c.page.updated_at);
    assert_eq!(c.page.created_at, t0());
    assert_eq!(c.page.content, "Body\n\nwith lines");
}

#[test]
fn empty_update_keeps_the_page() {
    let c = plan_create("id-1", &request(), "", t0());
    let before = read(stored(&c.row), &c.file);
    let existing: PageSummary = summary_from_row(stored(&c.row)).unwrap();
    let req = UpdatePageRequest { title: None, content: None, tags: None, parent_id: None, icon: None };

    let draft = resolve_update(&existing, &req);
    let content = update_content(&req.content, Some(c.file.clone()));
    let new_file = build_markdown("id-1", &draft.title, &draft.tags, &draft.icon, &content);

    let current = CurrentPage {
        title: c.row.title.clone(),
        tags_json: c.row.tags_json.clone(),
        parent_id: c.row.parent_id.clone(),
        icon: c.row.icon.clone(),
        created_at: c.row.created_at.clone(),
    };
    let u = plan_update("id-1", &current, &req, "", t1()).unwrap();
    let new_row = StoredPage {
        id: "id-1".to_string(),
        title: u.title.clone(),
        tags_json: u.tags_json.clone(),
        parent_id: u.parent_id.clone(),
        icon: u.icon.clone(),
        created_at: current.created_at.clone(),
        updated_at: u.updated_at.clone(),
    };
    let after = read(new_row, &new_file);
    same(&after, &before);
    assert_eq!(after.updated_at, t1());
    assert_eq!(u.summary.updated_at, t1());
}
