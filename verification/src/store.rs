//! How page metadata is laid out in the index database: the columns written
//! for a page, and the summary read back from them.
use vstd::prelude::*;
use vstd::string::*;

use crate::error::AppError;
use crate::ext::{
    has_four_digit_year, json_of_strings, parse_rfc3339, rfc3339_instant, rfc3339_text,
    strings_from_json, strings_of_json, strings_to_json,
};
use crate::models::{
    CreatePageRequest, CreatePageView, PageSummary, PageSummaryView, Timestamp, UpdatePageRequest,
    UpdatePageView,
};
use crate::text::{copy_opt_string, copy_strings, opt_text, texts_of};

verus! {

/// The columns of the `pages` table that creating a page writes.
#[derive(Clone, Debug)]
pub struct PageRow {
    pub id: String,
    pub title: String,
    pub tags_json: String,
    pub parent_id: Option<String>,
    pub icon: String,
    pub content_hash: String,
    pub created_at: String,
    pub updated_at: String,
}

/// The columns of the `pages` table that a summary is read from.
#[derive(Clone, Debug)]
pub struct StoredPage {
    pub id: String,
    pub title: String,
    pub tags_json: String,
    pub parent_id: Option<String>,
    pub icon: String,
    pub created_at: String,
    pub updated_at: String,
}

/// The columns of a live page that an update starts from.
#[derive(Clone, Debug)]
pub struct CurrentPage {
    pub title: String,
    pub tags_json: String,
    pub parent_id: Option<String>,
    pub icon: String,
    pub created_at: String,
}

/// What an update writes to the `pages` table, and the summary it answers with.
#[derive(Clone, Debug)]
pub struct PageUpdate {
    pub title: String,
    pub tags_json: String,
    pub parent_id: Option<String>,
    pub icon: String,
    pub content_hash: String,
    pub updated_at: String,
    pub summary: PageSummary,
}

/// A row of the `pages` table as text.
pub struct RowView {
    pub id: Seq<char>,
    pub title: Seq<char>,
    pub tags_json: Seq<char>,
    pub parent_id: Option<Seq<char>>,
    pub icon: Seq<char>,
    pub created_at: Seq<char>,
    pub updated_at: Seq<char>,
}

impl View for PageRow {
    type V = RowView;

    open spec fn view(&self) -> RowView {
        RowView {
            id: self.id@,
            title: self.title@,
            tags_json: self.tags_json@,
            parent_id: opt_text(self.parent_id),
            icon: self.icon@,
            created_at: self.created_at@,
            updated_at: self.updated_at@,
        }
    }
}

impl View for StoredPage {
    type V = RowView;

    open spec fn view(&self) -> RowView {
        RowView {
            id: self.id@,
            title: self.title@,
            tags_json: self.tags_json@,
            parent_id: opt_text(self.parent_id),
            icon: self.icon@,
            created_at: self.created_at@,
            updated_at: self.updated_at@,
        }
    }
}

/// The tags held in a `tags` column: none when the text is not a JSON list of strings.
pub open spec fn stored_tags(tags_json: Seq<char>) -> Seq<Seq<char>> {
    match strings_of_json(tags_json) {
        Some(tags) => tags,
        None => Seq::empty(),
    }
}

/// The row that creating a page writes at the instant `now`.
pub open spec fn new_row(id: Seq<char>, req: CreatePageView, now: Timestamp) -> RowView {
    RowView {
        id,
        title: req.title,
        tags_json: json_of_strings(req.tags),
        parent_id: req.parent_id,
        icon: req.icon,
        created_at: rfc3339_text(now@.0, now@.1),
        updated_at: rfc3339_text(now@.0, now@.1),
    }
}

/// The summary that creating a page at the instant `now` answers with.
pub open spec fn new_summary(id: Seq<char>, req: CreatePageView, now: Timestamp) -> PageSummaryView {
    PageSummaryView {
        id,
        title: req.title,
        tags: req.tags,
        parent_id: req.parent_id,
        icon: req.icon,
        created_at: now@,
        updated_at: now@,
    }
}

/// The summary read from a row; `None` when chrono cannot read a time column
/// as RFC 3339.
pub open spec fn summary_of_row(row: RowView) -> Option<PageSummaryView> {
    match (rfc3339_instant(row.created_at), rfc3339_instant(row.updated_at)) {
        (Some(created), Some(updated)) => Some(
            PageSummaryView {
                id: row.id,
                title: row.title,
                tags: stored_tags(row.tags_json),
                parent_id: row.parent_id,
                icon: row.icon,
                created_at: created,
                updated_at: updated,
            },
        ),
        _ => None,
    }
}

/// The `tags` column an update writes: the request's tags when it names some,
/// else the column as it was.
pub open spec fn updated_tags_json(current: Seq<char>, req: UpdatePageView) -> Seq<char> {
    match req.tags {
        Some(tags) => json_of_strings(tags),
        None => current,
    }
}

/// `new` when it is given, else `old`.
pub open spec fn or_keep<T>(new: Option<T>, old: T) -> T {
    match new {
        Some(v) => v,
        None => old,
    }
}

/// The row that updating the page with `id`, which stands as `current`,
/// leaves behind at the instant `now`.
pub open spec fn updated_row(
    id: Seq<char>,
    current: RowView,
    req: UpdatePageView,
    now: Timestamp,
) -> RowView {
    RowView {
        id,
        title: or_keep(req.title, current.title),
        tags_json: updated_tags_json(current.tags_json, req),
        parent_id: or_keep(req.parent_id, current.parent_id),
        icon: or_keep(req.icon, current.icon),
        created_at: current.created_at,
        updated_at: rfc3339_text(now@.0, now@.1),
    }
}

/// The summary that updating the page `id`, which stands as `current` and was
/// created at `created`, answers with at the instant `now`.
pub open spec fn updated_summary(
    id: Seq<char>,
    current: RowView,
    created: (i64, u32),
    req: UpdatePageView,
    now: Timestamp,
) -> PageSummaryView {
    PageSummaryView {
        id,
        title: or_keep(req.title, current.title),
        tags: or_keep(req.tags, stored_tags(current.tags_json)),
        parent_id: or_keep(req.parent_id, current.parent_id),
        icon: or_keep(req.icon, current.icon),
        created_at: created,
        updated_at: now@,
    }
}

/// The text of the text columns of a live page.
pub open spec fn current_row(id: Seq<char>, current: CurrentPage) -> RowView {
    RowView {
        id,
        title: current.title@,
        tags_json: current.tags_json@,
        parent_id: opt_text(current.parent_id),
        icon: current.icon@,
        created_at: current.created_at@,
        updated_at: Seq::empty(),
    }
}

/// The columns that creating the page `id` from `req` writes at the instant `now`.
pub fn new_page_row(id: &str, req: &CreatePageRequest, content_hash: &str, now: Timestamp) -> (row:
    PageRow)
    ensures
        row@ == new_row(id@, req@, now),
        row.content_hash@ == content_hash@,
        has_four_digit_year(now@.0) ==> summary_of_row(row@) == Some(new_summary(id@, req@, now)),
        row.id@ == id@,
        row.title == req.title,
        strings_of_json(row.tags_json@) == Some(texts_of(req.tags@)),
        row.parent_id == req.parent_id,
        row.icon == req.icon,
        row.created_at == row.updated_at,
        has_four_digit_year(now@.0) ==> rfc3339_instant(row.created_at@) == Some(now@),
{
    let tags_json = match strings_to_json(&req.tags) {
        Ok(text) => text,
        Err(_) => String::new(),
    };
    let stamp = now.to_rfc3339();
    PageRow {
        id: id.to_owned(),
        title: req.title.clone(),
        tags_json,
        parent_id: copy_opt_string(&req.parent_id),
        icon: req.icon.clone(),
        content_hash: content_hash.to_owned(),
        created_at: stamp.clone(),
        updated_at: stamp,
    }
}

/// The summary that creating the page `id` from `req` at the instant `now` answers with.
pub fn new_page_summary(id: &str, req: &CreatePageRequest, now: Timestamp) -> (summary: PageSummary)
    ensures
        summary@ == new_summary(id@, req@, now),
        summary.id@ == id@,
        summary.title == req.title,
        summary.tags@ == req.tags@,
        summary.parent_id == req.parent_id,
        summary.icon == req.icon,
        summary.created_at == now,
        summary.updated_at == now,
{
    PageSummary {
        id: id.to_owned(),
        title: req.title.clone(),
        tags: copy_strings(&req.tags),
        parent_id: copy_opt_string(&req.parent_id),
        icon: req.icon.clone(),
        created_at: now,
        updated_at: now,
    }
}

/// The tags in a `tags` column, or none when it does not parse.
fn read_tags(tags_json: &str) -> (tags: Vec<String>)
    ensures
        texts_of(tags@) == stored_tags(tags_json@),
        strings_of_json(tags_json@) matches Some(t) ==> texts_of(tags@) == t,
        strings_of_json(tags_json@) is None ==> tags@.len() == 0,
{
    match strings_from_json(tags_json) {
        Ok(tags) => tags,
        Err(_) => {
            let tags: Vec<String> = Vec::new();
            assert(texts_of(tags@) =~= Seq::<Seq<char>>::empty());
            tags
        },
    }
}

/// The summary of a page read from its columns; `None` when a time column
/// cannot be read as an instant.
pub fn summary_from_row(row: StoredPage) -> (summary: Option<PageSummary>)
    ensures
        match summary {
            Some(s) => summary_of_row(row@) == Some(s@),
            None => summary_of_row(row@) is None,
        },
        summary is Some <==> (rfc3339_instant(row.created_at@) is Some && rfc3339_instant(
            row.updated_at@,
        ) is Some),
        summary matches Some(s) ==> {
            &&& s.id == row.id
            &&& s.title == row.title
            &&& s.parent_id == row.parent_id
            &&& s.icon == row.icon
            &&& Some(s.created_at@) == rfc3339_instant(row.created_at@)
            &&& Some(s.updated_at@) == rfc3339_instant(row.updated_at@)
            &&& strings_of_json(row.tags_json@) matches Some(t) ==> texts_of(s.tags@) == t
            &&& strings_of_json(row.tags_json@) is None ==> s.tags@.len() == 0
        },
{
    let created = parse_rfc3339(row.created_at.as_str());
    let updated = parse_rfc3339(row.updated_at.as_str());
    match (created, updated) {
        (Some(created), Some(updated)) => {
            let tags = read_tags(row.tags_json.as_str());
            Some(
                PageSummary {
                    id: row.id,
                    title: row.title,
                    tags,
                    parent_id: row.parent_id,
                    icon: row.icon,
                    created_at: Timestamp::from_accepted(created.0, created.1),
                    updated_at: Timestamp::from_accepted(updated.0, updated.1),
                },
            )
        },
        _ => None,
    }
}

/// What updating the page `id`, standing as `current`, with `req` writes at
/// the instant `now`, and the summary it answers with; `None` when the
/// page's creation time cannot be read as an instant.
pub fn plan_update(
    id: &str,
    current: &CurrentPage,
    req: &UpdatePageRequest,
    content_hash: &str,
    now: Timestamp,
) -> (update: Option<PageUpdate>)
    ensures
        rfc3339_instant(current.created_at@) is Some <==> update is Some,
        update matches Some(u) ==> {
            let row = updated_row(id@, current_row(id@, *current), req@, now);
            &&& u.title@ == row.title
            &&& u.tags_json@ == row.tags_json
            &&& opt_text(u.parent_id) == row.parent_id
            &&& u.icon@ == row.icon
            &&& u.content_hash@ == content_hash@
            &&& u.updated_at@ == row.updated_at
            &&& has_four_digit_year(now@.0) ==> summary_of_row(row) == Some(u.summary@)
            &&& u.summary@ == updated_summary(
                id@,
                current_row(id@, *current),
                rfc3339_instant(current.created_at@)->0,
                req@,
                now,
            )
            &&& u.summary.id@ == id@
            &&& req.title matches Some(t) ==> u.title == t && u.summary.title == t
            &&& req.title is None ==> u.title == current.title && u.summary.title == current.title
            &&& req.parent_id matches Some(p) ==> u.parent_id == p && u.summary.parent_id == p
            &&& req.parent_id is None ==> u.parent_id == current.parent_id && u.summary.parent_id
                == current.parent_id
            &&& req.icon matches Some(i) ==> u.icon == i && u.summary.icon == i
            &&& req.icon is None ==> u.icon == current.icon && u.summary.icon == current.icon
            &&& req.tags matches Some(t) ==> strings_of_json(u.tags_json@) == Some(texts_of(t@))
                && texts_of(u.summary.tags@) == texts_of(t@)
            &&& req.tags is None ==> u.tags_json == current.tags_json
            &&& Some(u.summary.created_at@) == rfc3339_instant(current.created_at@)
            &&& u.summary.updated_at == now
        },
{
    let created = match parse_rfc3339(current.created_at.as_str()) {
        Some(n) => n,
        None => {
            return None;
        },
    };
    let title = match &req.title {
        Some(t) => t.clone(),
        None => current.title.clone(),
    };
    let tags_json = match &req.tags {
        Some(t) => match strings_to_json(t) {
            Ok(text) => text,
            Err(_) => {
                assert(false);
                String::new()
            },
        },
        None => current.tags_json.clone(),
    };
    let tags = read_tags(tags_json.as_str());
    let parent_id = match &req.parent_id {
        Some(p) => copy_opt_string(p),
        None => copy_opt_string(&current.parent_id),
    };
    let icon = match &req.icon {
        Some(i) => i.clone(),
        None => current.icon.clone(),
    };
    let stamp = now.to_rfc3339();
    let summary = PageSummary {
        id: id.to_owned(),
        title: title.clone(),
        tags,
        parent_id: copy_opt_string(&parent_id),
        icon: icon.clone(),
        created_at: Timestamp::from_accepted(created.0, created.1),
        updated_at: now,
    };
    Some(
        PageUpdate {
            title,
            tags_json,
            parent_id,
            icon,
            content_hash: content_hash.to_owned(),
            updated_at: stamp,
            summary,
        },
    )
}

/// The answer to a soft delete that changed `changed` rows: the page was
/// missing, or already deleted, when none changed.
pub fn soft_delete_outcome(changed: usize) -> (res: Result<(), AppError>)
    ensures
        res is Err <==> changed == 0,
        res matches Err(e) ==> e == AppError::NotFound,
{
    if changed == 0 {
        Err(AppError::NotFound)
    } else {
        Ok(())
    }
}

/// An update that names no field leaves the page's row as it was, but for the
/// time of its last update.
pub proof fn lemma_empty_update_keeps_row(id: Seq<char>, current: RowView, now: Timestamp)
    ensures
        ({
            let req = UpdatePageView {
                title: None,
                content: None,
                tags: None,
                parent_id: None,
                icon: None,
            };
            let row = updated_row(id, current, req, now);
            &&& row.title == current.title
            &&& row.tags_json == current.tags_json
            &&& row.parent_id == current.parent_id
            &&& row.icon == current.icon
            &&& row.created_at == current.created_at
            &&& row.updated_at == rfc3339_text(now@.0, now@.1)
        }),
{
}

/// Taking a given value gives it; taking nothing keeps the old one.
pub proof fn lemma_or_keep<T>(v: T, old: T)
    ensures
        or_keep(Some(v), old) == v,
        or_keep(None, old) == old,
{
}

/// The summary read from a row carries the row's id, title, parent and icon,
/// the instants chrono reads from its time columns, and the list its tags
/// column holds (none when the column is not a JSON list of strings); it is
/// read exactly when both time columns are.
pub proof fn lemma_row_summary_fields(row: RowView)
    ensures
        summary_of_row(row) is Some <==> (rfc3339_instant(row.created_at) is Some
            && rfc3339_instant(row.updated_at) is Some),
        summary_of_row(row) matches Some(s) ==> {
            &&& s.id == row.id
            &&& s.title == row.title
            &&& s.parent_id == row.parent_id
            &&& s.icon == row.icon
            &&& Some(s.created_at) == rfc3339_instant(row.created_at)
            &&& Some(s.updated_at) == rfc3339_instant(row.updated_at)
            &&& strings_of_json(row.tags_json) matches Some(t) ==> s.tags == t
            &&& strings_of_json(row.tags_json) is None ==> s.tags.len() == 0
        },
{
}

/// Creating a page writes the request's title, parent and icon under its id,
/// its tags as their JSON list, and the same time in both time columns; the
/// page answered with has the request's title, tags, parent and icon, made and
/// changed at the instant of creation.
pub proof fn lemma_created_page_fields(id: Seq<char>, req: CreatePageView, now: Timestamp)
    ensures
        new_row(id, req, now).id == id,
        new_row(id, req, now).title == req.title,
        new_row(id, req, now).tags_json == json_of_strings(req.tags),
        new_row(id, req, now).parent_id == req.parent_id,
        new_row(id, req, now).icon == req.icon,
        new_row(id, req, now).created_at == new_row(id, req, now).updated_at,
        new_summary(id, req, now).id == id,
        new_summary(id, req, now).title == req.title,
        new_summary(id, req, now).tags == req.tags,
        new_summary(id, req, now).parent_id == req.parent_id,
        new_summary(id, req, now).icon == req.icon,
        new_summary(id, req, now).created_at == now@,
        new_summary(id, req, now).updated_at == now@,
{
}

/// An update replaces the title, tags, parent and icon that the request names
/// and keeps the others, keeps the creation time, and stamps the update time;
/// its summary says the same, with the tags the written column holds.
pub proof fn lemma_updated_page_fields(
    id: Seq<char>,
    current: RowView,
    created: (i64, u32),
    req: UpdatePageView,
    now: Timestamp,
)
    ensures
        ({
            let row = updated_row(id, current, req, now);
            let s = updated_summary(id, current, created, req, now);
            &&& row.id == id && s.id == id
            &&& req.title matches Some(t) ==> row.title == t && s.title == t
            &&& req.title is None ==> row.title == current.title && s.title == current.title
            &&& req.parent_id matches Some(p) ==> row.parent_id == p && s.parent_id == p
            &&& req.parent_id is None ==> row.parent_id == current.parent_id && s.parent_id
                == current.parent_id
            &&& req.icon matches Some(i) ==> row.icon == i && s.icon == i
            &&& req.icon is None ==> row.icon == current.icon && s.icon == current.icon
            &&& req.tags matches Some(t) ==> row.tags_json == json_of_strings(t) && s.tags == t
            &&& req.tags is None ==> row.tags_json == current.tags_json && s.tags == stored_tags(
                current.tags_json,
            )
            &&& row.created_at == current.created_at && s.created_at == created
            &&& row.updated_at == rfc3339_text(now@.0, now@.1) && s.updated_at == now@
        }),
{
}

} // verus!
