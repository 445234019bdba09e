//! What the request handlers decide between their calls to the repository and
//! the index: commit messages, the values an update writes, revision ids, and
//! the text of a stored file.
use vstd::prelude::*;
use vstd::string::*;
use vstd::utf8::*;

use git2::Oid;

use crate::error::AppError;
use crate::markdown::{extract_content, page_body};
use crate::models::{PageSummary, UpdatePageRequest};
use crate::store::or_keep;
use crate::text::{copy_strings, texts_of};

verus! {

broadcast use vstd::utf8::group_utf8_lib;

/// How many commits a page's history shows.
pub const HISTORY_LIMIT: usize = 50;

/// The item, or `NotFound` when there is none.
pub fn found<T>(item: Option<T>) -> (res: Result<T, AppError>)
    ensures
        match item {
            Some(x) => res == Ok::<T, AppError>(x),
            None => res == Err::<T, AppError>(AppError::NotFound),
        },
{
    match item {
        Some(x) => Ok(x),
        None => Err(AppError::NotFound),
    }
}

/// `prefix` followed by `title`.
fn labelled(prefix: &str, title: &str) -> (msg: String)
    ensures
        msg@ == prefix@ + title@,
{
    let mut msg = prefix.to_owned();
    msg.append(title);
    msg
}

/// The message of the commit that creates a page.
pub fn creation_message(title: &str) -> (msg: String)
    ensures
        msg@ == "create: "@ + title@,
{
    labelled("create: ", title)
}

/// The message of the commit that updates a page.
pub fn update_message(title: &str) -> (msg: String)
    ensures
        msg@ == "update: "@ + title@,
{
    labelled("update: ", title)
}

/// The message of the commit that deletes a page.
pub fn deletion_message(title: &str) -> (msg: String)
    ensures
        msg@ == "delete: "@ + title@,
{
    labelled("delete: ", title)
}

/// The message of the commit that restores a page to an earlier revision: the
/// title and the first eight bytes of the revision id as given.
pub fn restore_message(title: &str, revision: &str) -> (msg: String)
    requires
        8 <= revision.spec_bytes().len(),
        is_char_boundary(revision.spec_bytes(), 8),
    ensures
        msg@ == "restore: "@ + title@ + " to "@ + decode_utf8(revision.spec_bytes().subrange(0, 8)),
{
    let (short, _) = revision.split_at(8);
    proof {
        assert(decode_utf8(encode_utf8(short@)) == short@);
    }
    let mut msg = labelled("restore: ", title);
    msg.append(" to ");
    msg.append(short);
    msg
}

/// The title, tags and icon that an update writes to the page file.
#[derive(Clone, Debug)]
pub struct UpdateDraft {
    pub title: String,
    pub tags: Vec<String>,
    pub icon: String,
}

/// The title, tags and icon of `existing` after `req`: each one the request
/// names replaces the page's own.
pub fn resolve_update(existing: &PageSummary, req: &UpdatePageRequest) -> (draft: UpdateDraft)
    ensures
        draft.title@ == or_keep(req@.title, existing@.title),
        texts_of(draft.tags@) == or_keep(req@.tags, existing@.tags),
        draft.icon@ == or_keep(req@.icon, existing@.icon),
        req.title matches Some(t) ==> draft.title == t,
        req.title is None ==> draft.title == existing.title,
        req.tags matches Some(t) ==> draft.tags@ == t@,
        req.tags is None ==> draft.tags@ == existing.tags@,
        req.icon matches Some(i) ==> draft.icon == i,
        req.icon is None ==> draft.icon == existing.icon,
{
    let title = match &req.title {
        Some(t) => t.clone(),
        None => existing.title.clone(),
    };
    let tags = match &req.tags {
        Some(t) => copy_strings(t),
        None => copy_strings(&existing.tags),
    };
    let icon = match &req.icon {
        Some(i) => i.clone(),
        None => existing.icon.clone(),
    };
    UpdateDraft { title, tags, icon }
}

/// The body an update writes: the request's content when it names one, else
/// the body of the stored file (`stored_file`, none when the page has no file).
pub fn update_content(req_content: &Option<String>, stored_file: Option<String>) -> (content: String)
    ensures
        content@ == match req_content {
            Some(c) => c@,
            None => match stored_file {
                Some(raw) => page_body(raw@),
                None => page_body(Seq::empty()),
            },
        },
{
    match req_content {
        Some(c) => c.clone(),
        None => {
            let raw = match stored_file {
                Some(raw) => raw,
                None => String::new(),
            };
            extract_content(raw.as_str()).to_owned()
        },
    }
}

/// The request that a restore hands to the index: the restored body, all else kept.
pub fn restore_request(content: String) -> (req: UpdatePageRequest)
    ensures
        req.content == Some(content),
        req.title is None,
        req.tags is None,
        req.parent_id is None,
        req.icon is None,
{
    UpdatePageRequest { title: None, content: Some(content), tags: None, parent_id: None, icon: None }
}

/// `c` is a hexadecimal digit, of either case.
pub open spec fn is_hex_digit(c: char) -> bool {
    ('0' <= c <= '9') || ('a' <= c <= 'f') || ('A' <= c <= 'F')
}

/// The value of a hexadecimal digit.
pub open spec fn hex_value(c: char) -> int {
    if '0' <= c <= '9' {
        c as int - '0' as int
    } else if 'a' <= c <= 'f' {
        c as int - 'a' as int + 10
    } else {
        c as int - 'A' as int + 10
    }
}

/// `text` names an object id: one to forty hexadecimal digits.
pub open spec fn is_oid_text(text: Seq<char>) -> bool {
    &&& 1 <= text.len() <= 40
    &&& forall|i: int| 0 <= i < text.len() ==> is_hex_digit(#[trigger] text[i])
}

/// The digit at `i` of an object id written as `text`, zero past its end.
pub open spec fn oid_digit(text: Seq<char>, i: int) -> int {
    if i < text.len() {
        hex_value(text[i])
    } else {
        0
    }
}

/// The twenty bytes of the object id written as `text`, read two digits to a
/// byte, high digit first, the missing digits zero.
pub open spec fn oid_bytes_of_text(text: Seq<char>) -> Seq<u8> {
    Seq::new(20, |k: int| (oid_digit(text, 2 * k) * 16 + oid_digit(text, 2 * k + 1)) as u8)
}

/// Why libgit2 refuses a text as an object id: it is empty, longer than forty
/// bytes, or holds a byte that is not a hexadecimal digit.
pub open spec fn oid_refusal(text: Seq<char>) -> Seq<char> {
    if encode_utf8(text).len() == 0 {
        "too short"@
    } else if encode_utf8(text).len() > 40 {
        "too long"@
    } else {
        "contains invalid characters"@
    }
}

/// The message of the error that git2 gives for a text that names no object
/// id: libgit2's message, then git2's note of the error class.
pub open spec fn oid_error_text(text: Seq<char>) -> Seq<char> {
    "unable to parse OID - "@ + oid_refusal(text) + "; class=Invalid (3)"@
}

/// Calls `git2::Oid::from_str`, then hands back the id's bytes, or the error's
/// message. Assumed, from git2's documentation and libgit2's `git_oid_fromstrn`:
/// it succeeds exactly on one to forty hexadecimal digits, reads them two to a
/// byte, high digit first, into twenty bytes padded with zeros; on failure
/// libgit2 sets the message "unable to parse OID - " and the reason, with the
/// class `GIT_ERROR_INVALID` (3) and the generic error code, which git2's
/// `Display` writes as `oid_error_text`.
#[verifier::external_body]
fn oid_from_hex(text: &str) -> (res: Result<Vec<u8>, String>)
    ensures
        res is Ok <==> is_oid_text(text@),
        res matches Ok(bytes) ==> bytes@ == oid_bytes_of_text(text@),
        res matches Err(msg) ==> msg@ == oid_error_text(text@),
{
    match Oid::from_str(text) {
        Ok(oid) => Ok(oid.as_bytes().to_vec()),
        Err(e) => Err(e.to_string()),
    }
}

/// The bytes of the revision named by `text`; an internal error, with git2's
/// message, when the text names no object id.
pub fn parse_revision(text: &str) -> (res: Result<Vec<u8>, AppError>)
    ensures
        res is Ok <==> is_oid_text(text@),
        res matches Ok(bytes) ==> bytes@ == oid_bytes_of_text(text@),
        res matches Err(e) ==> (e matches AppError::Internal(msg) && msg@ == oid_error_text(text@)),
{
    match oid_from_hex(text) {
        Ok(bytes) => Ok(bytes),
        Err(msg) => Err(AppError::Internal(msg)),
    }
}

/// The message of the error that `std::str::from_utf8` gives for bytes that
/// are not UTF-8.
pub uninterp spec fn utf8_error_text(bytes: Seq<u8>) -> Seq<char>;

/// Calls `std::str::from_utf8`, and on failure hands back the error's message.
/// Assumed, from its documentation: it succeeds exactly when the bytes are
/// valid UTF-8, and then the text is made of them; the message of its error
/// (where the invalid sequence starts, and how long it is) depends on the
/// bytes alone.
#[verifier::external_body]
fn utf8_text(bytes: &[u8]) -> (res: Result<&str, String>)
    ensures
        res is Ok <==> valid_utf8(bytes@),
        res matches Ok(text) ==> text.spec_bytes() == bytes@,
        res matches Err(msg) ==> msg@ == utf8_error_text(bytes@),
{
    match std::str::from_utf8(bytes) {
        Ok(text) => Ok(text),
        Err(e) => Err(e.to_string()),
    }
}

/// The text of a stored file; an internal error, with std's message, when its
/// bytes are not UTF-8.
pub fn file_text(bytes: &[u8]) -> (res: Result<String, AppError>)
    ensures
        res is Ok <==> valid_utf8(bytes@),
        res matches Ok(text) ==> text@ == decode_utf8(bytes@),
        res matches Err(e) ==> (e matches AppError::Internal(msg) && msg@ == utf8_error_text(bytes@)),
{
    match utf8_text(bytes) {
        Ok(text) => {
            proof {
                assert(decode_utf8(encode_utf8(text@)) == text@);
            }
            Ok(text.to_owned())
        },
        Err(msg) => Err(AppError::Internal(msg)),
    }
}

} // verus!
