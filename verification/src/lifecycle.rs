//! A page across its operations: what creating it writes, and what reading it
//! back after a creation or an update shows.
use vstd::prelude::*;

use crate::ext::{has_four_digit_year, rfc3339_instant, rfc3339_text};
use crate::markdown::{
    build_markdown, has_marker, lemma_page_file_round_trip, markdown_document, page_body,
    trim_leading_newlines,
};
use crate::models::{page_of, CreatePageRequest, Page, PageView, Timestamp, UpdatePageView};
use crate::service::creation_message;
use crate::store::{
    new_page_row, new_page_summary, new_row, new_summary, or_keep, summary_of_row, updated_row,
    PageRow, RowView,
};

verus! {

/// What reading a page shows when its index row reads as `row` and its file as
/// `file`: the row's summary with the file's body; `None` when the row's times
/// cannot be read.
pub open spec fn page_as_read(row: RowView, file: Seq<char>) -> Option<PageView> {
    match summary_of_row(row) {
        Some(s) => Some(page_of(s, page_body(file))),
        None => None,
    }
}

/// `s` starts with a line feed.
pub open spec fn starts_with_newline(s: Seq<char>) -> bool {
    s.len() > 0 && s[0] == '\n'
}

/// Neither the id, the title, the icon nor any tag holds `---`.
pub open spec fn fields_without_marker(
    id: Seq<char>,
    title: Seq<char>,
    tags: Seq<Seq<char>>,
    icon: Seq<char>,
) -> bool {
    &&& !has_marker(id)
    &&& !has_marker(title)
    &&& !has_marker(icon)
    &&& forall|i: int| 0 <= i < tags.len() ==> !has_marker(#[trigger] tags[i])
}

/// An update request that names no field.
pub open spec fn no_change() -> UpdatePageView {
    UpdatePageView { title: None, content: None, tags: None, parent_id: None, icon: None }
}

/// What creating a page writes and answers with: the commit message, the page
/// file, the index row, and the page.
#[derive(Clone, Debug)]
pub struct PageCreation {
    pub message: String,
    pub file: String,
    pub row: PageRow,
    pub page: Page,
}

/// What creating the page `id` from `req` at the instant `now` writes and
/// answers with. Reading the page back shows the page answered with, when
/// none of its fields holds `---`, its content does not start with a line
/// feed, and the year of `now` has four digits.
pub fn plan_create(id: &str, req: &CreatePageRequest, content_hash: &str, now: Timestamp) -> (c:
    PageCreation)
    ensures
        c.message@ == "create: "@ + req.title@,
        c.file@ == markdown_document(id@, req@.title, req@.tags, req@.icon, req@.content),
        c.row@ == new_row(id@, req@, now),
        c.row.content_hash@ == content_hash@,
        c.page@ == page_of(new_summary(id@, req@, now), req@.content),
        fields_without_marker(id@, req@.title, req@.tags, req@.icon) && !starts_with_newline(
            req@.content,
        ) && has_four_digit_year(now@.0) ==> page_as_read(c.row@, c.file@) == Some(c.page@),
{
    let message = creation_message(&req.title);
    let file = build_markdown(id, &req.title, req.tags.as_slice(), &req.icon, &req.content);
    let row = new_page_row(id, req, content_hash, now);
    let summary = new_page_summary(id, req, now);
    let page = Page::from_summary(summary, req.content.clone());
    proof {
        if fields_without_marker(id@, req@.title, req@.tags, req@.icon) && !starts_with_newline(
            req@.content,
        ) {
            lemma_page_file_round_trip(id@, req@.title, req@.tags, req@.icon, req@.content);
            assert(trim_leading_newlines(req@.content) == req@.content);
        }
    }
    PageCreation { message, file, row, page }
}

/// An update that names no field leaves the page as reading shows it, but for
/// the time of its last update, which becomes the instant of the update. The
/// update writes the row `updated_row` makes of the request, and the file made
/// of the title, tags and icon `resolve_update` keeps and the body
/// `update_content` reads from the stored file. Assumed of chrono, as
/// `format_rfc3339` ensures of every instant it writes: it reads `now` back from
/// the text it writes for it.
pub proof fn lemma_empty_update_keeps_page(
    id: Seq<char>,
    row: RowView,
    file: Seq<char>,
    now: Timestamp,
)
    requires
        row.id == id,
        page_as_read(row, file) is Some,
        fields_without_marker(
            id,
            page_as_read(row, file)->0.title,
            page_as_read(row, file)->0.tags,
            page_as_read(row, file)->0.icon,
        ),
        !starts_with_newline(page_as_read(row, file)->0.content),
        rfc3339_instant(rfc3339_text(now@.0, now@.1)) == Some(now@),
    ensures
        ({
            let p = page_as_read(row, file)->0;
            let req = no_change();
            let new_row = updated_row(id, row, req, now);
            let new_file = markdown_document(
                id,
                or_keep(req.title, p.title),
                or_keep(req.tags, p.tags),
                or_keep(req.icon, p.icon),
                page_body(file),
            );
            page_as_read(new_row, new_file) == Some(PageView { updated_at: now@, ..p })
        }),
{
    let p = page_as_read(row, file)->0;
    lemma_page_file_round_trip(id, p.title, p.tags, p.icon, p.content);
    assert(trim_leading_newlines(p.content) == p.content);
}

} // verus!
