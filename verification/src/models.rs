//! The values that the API takes and hands back.
use vstd::prelude::*;

use crate::ext::{
    format_rfc3339, has_four_digit_year, rfc3339_instant, rfc3339_text, utc_accepts, utc_default,
    utc_from_timestamp,
};
use crate::text::{opt_text, texts_of};

verus! {

/// An instant, as seconds since 1970-01-01T00:00:00Z and the nanoseconds
/// within the second, always one that chrono's `DateTime<Utc>` can hold.
#[derive(Clone, Copy, Debug, PartialEq, Eq, Structural)]
pub struct Timestamp {
    secs: i64,
    nanos: u32,
}

impl View for Timestamp {
    type V = (i64, u32);

    closed spec fn view(&self) -> (i64, u32) {
        (self.secs, self.nanos)
    }
}

impl Timestamp {
    #[verifier::type_invariant]
    closed spec fn is_utc_instant(self) -> bool {
        utc_accepts(self.secs, self.nanos)
    }

    /// The instant `secs` seconds and `nanos` nanoseconds after the Unix epoch;
    /// `None` when chrono cannot hold it.
    pub fn from_unix(secs: i64, nanos: u32) -> (t: Option<Timestamp>)
        ensures
            t is Some <==> utc_accepts(secs, nanos),
            t matches Some(t) ==> t@ == (secs, nanos),
    {
        match utc_from_timestamp(secs, nanos) {
            Some((s, n)) => Some(Timestamp { secs: s, nanos: n }),
            None => None,
        }
    }

    /// The instant `secs` seconds and `nanos` nanoseconds after the Unix epoch,
    /// which chrono holds.
    pub(crate) fn from_accepted(secs: i64, nanos: u32) -> (t: Timestamp)
        requires
            utc_accepts(secs, nanos),
        ensures
            t@ == (secs, nanos),
    {
        Timestamp { secs, nanos }
    }

    /// The Unix epoch, chrono's default instant.
    pub fn epoch() -> (t: Timestamp)
        ensures
            t@ == (0i64, 0u32),
    {
        let (secs, nanos) = utc_default();
        Timestamp { secs, nanos }
    }

    /// The seconds since the Unix epoch.
    pub fn secs(&self) -> (s: i64)
        ensures
            s == self@.0,
    {
        self.secs
    }

    /// The nanoseconds within the second (a second more on a leap second).
    pub fn subsec_nanos(&self) -> (n: u32)
        ensures
            n == self@.1,
    {
        self.nanos
    }

    /// The instant as chrono writes it in RFC 3339, which chrono reads back
    /// as the same instant when its year has four digits.
    pub fn to_rfc3339(&self) -> (text: String)
        ensures
            text@ == rfc3339_text(self@.0, self@.1),
            has_four_digit_year(self@.0) ==> rfc3339_instant(text@) == Some(self@),
    {
        proof {
            use_type_invariant(self);
        }
        format_rfc3339(self.secs, self.nanos)
    }
}

/// A page with its body.
#[derive(Clone, Debug)]
pub struct Page {
    pub id: String,
    pub title: String,
    pub content: String,
    pub tags: Vec<String>,
    pub parent_id: Option<String>,
    pub icon: String,
    pub created_at: Timestamp,
    pub updated_at: Timestamp,
}

/// What the index knows of a page: everything but its body.
#[derive(Clone, Debug)]
pub struct PageSummary {
    pub id: String,
    pub title: String,
    pub tags: Vec<String>,
    pub parent_id: Option<String>,
    pub icon: String,
    pub created_at: Timestamp,
    pub updated_at: Timestamp,
}

/// A request to create a page.
#[derive(Clone, Debug)]
pub struct CreatePageRequest {
    pub title: String,
    pub content: String,
    pub tags: Vec<String>,
    pub parent_id: Option<String>,
    pub icon: String,
}

/// A request to change a page: each field that is `None` keeps its value.
/// `parent_id` is `Some(None)` to detach the page from its parent.
#[derive(Clone, Debug)]
pub struct UpdatePageRequest {
    pub title: Option<String>,
    pub content: Option<String>,
    pub tags: Option<Vec<String>>,
    pub parent_id: Option<Option<String>>,
    pub icon: Option<String>,
}

/// The pages under one parent, with their number.
#[derive(Clone, Debug)]
pub struct PageListResponse {
    pub pages: Vec<PageSummary>,
    pub total: usize,
}

/// One commit of a page's history.
#[derive(Clone, Debug)]
pub struct CommitInfo {
    pub oid: String,
    pub message: String,
    pub author: String,
    pub timestamp: Timestamp,
}

/// Which pages to list: the children of `parent_id`, or the top-level pages.
#[derive(Clone, Debug)]
pub struct ListPagesQuery {
    pub parent_id: Option<String>,
}

/// A full-text search with paging.
#[derive(Clone, Debug)]
pub struct SearchQuery {
    pub q: String,
    pub limit: usize,
    pub offset: usize,
}

/// A page of search hits and the number of hits in all.
#[derive(Clone, Debug)]
pub struct SearchResult {
    pub pages: Vec<PageSummary>,
    pub total: usize,
}

/// A page summary as text.
pub struct PageSummaryView {
    pub id: Seq<char>,
    pub title: Seq<char>,
    pub tags: Seq<Seq<char>>,
    pub parent_id: Option<Seq<char>>,
    pub icon: Seq<char>,
    pub created_at: (i64, u32),
    pub updated_at: (i64, u32),
}

impl View for PageSummary {
    type V = PageSummaryView;

    open spec fn view(&self) -> PageSummaryView {
        PageSummaryView {
            id: self.id@,
            title: self.title@,
            tags: texts_of(self.tags@),
            parent_id: opt_text(self.parent_id),
            icon: self.icon@,
            created_at: self.created_at@,
            updated_at: self.updated_at@,
        }
    }
}

/// A page as text.
pub struct PageView {
    pub id: Seq<char>,
    pub title: Seq<char>,
    pub content: Seq<char>,
    pub tags: Seq<Seq<char>>,
    pub parent_id: Option<Seq<char>>,
    pub icon: Seq<char>,
    pub created_at: (i64, u32),
    pub updated_at: (i64, u32),
}

impl View for Page {
    type V = PageView;

    open spec fn view(&self) -> PageView {
        PageView {
            id: self.id@,
            title: self.title@,
            content: self.content@,
            tags: texts_of(self.tags@),
            parent_id: opt_text(self.parent_id),
            icon: self.icon@,
            created_at: self.created_at@,
            updated_at: self.updated_at@,
        }
    }
}

/// The page made of a summary and a body.
pub open spec fn page_of(summary: PageSummaryView, content: Seq<char>) -> PageView {
    PageView {
        id: summary.id,
        title: summary.title,
        content,
        tags: summary.tags,
        parent_id: summary.parent_id,
        icon: summary.icon,
        created_at: summary.created_at,
        updated_at: summary.updated_at,
    }
}

/// A creation request as text.
pub struct CreatePageView {
    pub title: Seq<char>,
    pub content: Seq<char>,
    pub tags: Seq<Seq<char>>,
    pub parent_id: Option<Seq<char>>,
    pub icon: Seq<char>,
}

impl View for CreatePageRequest {
    type V = CreatePageView;

    open spec fn view(&self) -> CreatePageView {
        CreatePageView {
            title: self.title@,
            content: self.content@,
            tags: texts_of(self.tags@),
            parent_id: opt_text(self.parent_id),
            icon: self.icon@,
        }
    }
}

/// An update request as text.
pub struct UpdatePageView {
    pub title: Option<Seq<char>>,
    pub content: Option<Seq<char>>,
    pub tags: Option<Seq<Seq<char>>>,
    pub parent_id: Option<Option<Seq<char>>>,
    pub icon: Option<Seq<char>>,
}

impl View for UpdatePageRequest {
    type V = UpdatePageView;

    open spec fn view(&self) -> UpdatePageView {
        UpdatePageView {
            title: opt_text(self.title),
            content: opt_text(self.content),
            tags: match self.tags {
                Some(t) => Some(texts_of(t@)),
                None => None,
            },
            parent_id: match self.parent_id {
                Some(p) => Some(opt_text(p)),
                None => None,
            },
            icon: opt_text(self.icon),
        }
    }
}

/// The number of hits a search returns when the query names no limit.
pub fn default_limit() -> (limit: usize)
    ensures
        limit == 20,
{
    20
}

impl Page {
    /// The page made of the metadata in `summary` and the body `content`.
    pub fn from_summary(summary: PageSummary, content: String) -> (page: Page)
        ensures
            page.id == summary.id,
            page.title == summary.title,
            page.content == content,
            page.tags == summary.tags,
            page.parent_id == summary.parent_id,
            page.icon == summary.icon,
            page.created_at == summary.created_at,
            page.updated_at == summary.updated_at,
            page@ == page_of(summary@, content@),
    {
        Page {
            id: summary.id,
            title: summary.title,
            content,
            tags: summary.tags,
            parent_id: summary.parent_id,
            icon: summary.icon,
            created_at: summary.created_at,
            updated_at: summary.updated_at,
        }
    }
}

impl PageListResponse {
    /// The listing of `pages`, counted.
    pub fn new(pages: Vec<PageSummary>) -> (resp: PageListResponse)
        ensures
            resp.pages == pages,
            resp.total == pages.len(),
    {
        let total = pages.len();
        PageListResponse { pages, total }
    }
}

} // verus!
