//! The calls this library makes into chrono and serde_json, with what it
//! assumes of them.
use vstd::prelude::*;

use chrono::{DateTime, TimeZone, Utc};

use crate::text::texts_of;

verus! {

/// `DateTime::<Utc>::from_timestamp` accepts the instant `secs` seconds and
/// `nanos` nanoseconds after the Unix epoch: it lies in chrono's range of
/// dates, and the nanoseconds are below one second, or below two on a leap
/// second.
pub uninterp spec fn utc_accepts(secs: i64, nanos: u32) -> bool;

/// The RFC 3339 text that chrono writes for an instant.
pub uninterp spec fn rfc3339_text(secs: i64, nanos: u32) -> Seq<char>;

/// The instant, as seconds and nanoseconds after the Unix epoch, that chrono
/// reads from an RFC 3339 text; `None` when chrono refuses the text.
pub uninterp spec fn rfc3339_instant(text: Seq<char>) -> Option<(i64, u32)>;

/// The instant lies between 0000-01-01T00:00:00Z and the end of
/// 9999-12-31: chrono writes its year with four digits, as RFC 3339 reads it.
pub open spec fn has_four_digit_year(secs: i64) -> bool {
    -62_167_219_200 <= secs <= 253_402_300_799
}

/// The lower-case hexadecimal digit of a value below sixteen.
pub open spec fn hex_digit_char(n: int) -> char {
    if n < 10 {
        ('0' as int + n) as char
    } else {
        ('a' as int + n - 10) as char
    }
}

/// How serde_json writes a character inside a JSON string: a double quote,
/// a backslash and the control characters escaped, the short forms where
/// JSON has them, anything else as it is.
pub open spec fn json_escaped_char(c: char) -> Seq<char> {
    if c == '"' {
        seq!['\\', '"']
    } else if c == '\\' {
        seq!['\\', '\\']
    } else if c == '\u{8}' {
        seq!['\\', 'b']
    } else if c == '\t' {
        seq!['\\', 't']
    } else if c == '\n' {
        seq!['\\', 'n']
    } else if c == '\u{c}' {
        seq!['\\', 'f']
    } else if c == '\r' {
        seq!['\\', 'r']
    } else if (c as int) < 0x20 {
        seq!['\\', 'u', '0', '0', hex_digit_char(c as int / 16), hex_digit_char(c as int % 16)]
    } else {
        seq![c]
    }
}

/// The characters of a string as serde_json writes them inside quotes.
pub open spec fn json_escaped(s: Seq<char>) -> Seq<char>
    decreases s.len(),
{
    if s.len() == 0 {
        Seq::empty()
    } else {
        json_escaped(s.drop_last()) + json_escaped_char(s.last())
    }
}

/// The strings as JSON strings, separated by commas.
pub open spec fn json_items(items: Seq<Seq<char>>) -> Seq<char>
    decreases items.len(),
{
    if items.len() == 0 {
        Seq::empty()
    } else if items.len() == 1 {
        seq!['"'] + json_escaped(items[0]) + seq!['"']
    } else {
        json_items(items.drop_last()) + seq![','] + seq!['"'] + json_escaped(items.last()) + seq![
            '"',
        ]
    }
}

/// The JSON array that serde_json writes for a list of strings, with no space.
pub open spec fn json_of_strings(items: Seq<Seq<char>>) -> Seq<char> {
    seq!['['] + json_items(items) + seq![']']
}

/// The list of strings that serde_json reads from a JSON text; `None` when the
/// text is not a JSON array of strings.
pub uninterp spec fn strings_of_json(text: Seq<char>) -> Option<Seq<Seq<char>>>;

#[verifier::external_type_specification]
#[verifier::external_body]
pub struct ExJsonError(serde_json::Error);

/// Calls `DateTime::<Utc>::from_timestamp` and hands back the instant's
/// `timestamp` and `timestamp_subsec_nanos`. Assumed: it succeeds exactly when
/// `utc_accepts` holds, and then gives back the seconds and nanoseconds it was given.
#[verifier::external_body]
pub(crate) fn utc_from_timestamp(secs: i64, nanos: u32) -> (instant: Option<(i64, u32)>)
    ensures
        instant is Some <==> utc_accepts(secs, nanos),
        instant matches Some(t) ==> t == (secs, nanos),
{
    match DateTime::<Utc>::from_timestamp(secs, nanos) {
        Some(t) => Some((t.timestamp(), t.timestamp_subsec_nanos())),
        None => None,
    }
}

/// Calls `DateTime::<Utc>::default`, the Unix epoch, and hands back its
/// `timestamp` and `timestamp_subsec_nanos`. Assumed: both are zero, and the
/// instant is one that `from_timestamp` accepts.
#[verifier::external_body]
pub(crate) fn utc_default() -> (instant: (i64, u32))
    ensures
        instant == (0i64, 0u32),
        utc_accepts(instant.0, instant.1),
{
    let t = DateTime::<Utc>::default();
    (t.timestamp(), t.timestamp_subsec_nanos())
}

/// Calls `Utc.timestamp`, which panics where `from_timestamp` refuses the
/// instant, and then `DateTime::to_rfc3339`. Assumed: the text is
/// `rfc3339_text` of the instant, and when the year has four digits
/// `DateTime::parse_from_rfc3339` reads the same instant back from it (chrono
/// writes every nonzero nanosecond, the offset `+00:00`, and a leap second as
/// second 60, which it reads back as such).
#[verifier::external_body]
#[allow(deprecated)]
pub(crate) fn format_rfc3339(secs: i64, nanos: u32) -> (text: String)
    requires
        utc_accepts(secs, nanos),
    ensures
        text@ == rfc3339_text(secs, nanos),
        has_four_digit_year(secs) ==> rfc3339_instant(text@) == Some((secs, nanos)),
{
    Utc.timestamp(secs, nanos).to_rfc3339()
}

/// Calls `DateTime::parse_from_rfc3339` and, on success, hands back the
/// instant's `timestamp` and `timestamp_subsec_nanos`. Assumed: the result is
/// `rfc3339_instant` of the text, and an instant that chrono parsed is one
/// that `from_timestamp` accepts.
#[verifier::external_body]
pub(crate) fn parse_rfc3339(text: &str) -> (instant: Option<(i64, u32)>)
    ensures
        instant == rfc3339_instant(text@),
        instant matches Some(t) ==> utc_accepts(t.0, t.1),
{
    match DateTime::parse_from_rfc3339(text) {
        Ok(t) => Some((t.timestamp(), t.timestamp_subsec_nanos())),
        Err(_) => None,
    }
}

/// Calls `serde_json::to_string` on a list of strings. Assumed: it succeeds
/// (its documentation names as the only failures a `Serialize` impl that fails
/// and a map with keys that are not strings); the text is `json_of_strings` of
/// the list, as serde_json's compact formatter and its escape table write it;
/// and `serde_json::from_str` reads the same list back from it.
#[verifier::external_body]
pub(crate) fn strings_to_json(items: &Vec<String>) -> (res: Result<String, serde_json::Error>)
    ensures
        res is Ok,
        res matches Ok(text) ==> text@ == json_of_strings(texts_of(items@)),
        res matches Ok(text) ==> strings_of_json(text@) == Some(texts_of(items@)),
{
    serde_json::to_string(items)
}

/// Calls `serde_json::from_str` for a list of strings. Assumed: it succeeds
/// exactly when `strings_of_json` of the text is `Some`, and then gives that list.
#[verifier::external_body]
pub(crate) fn strings_from_json(text: &str) -> (res: Result<Vec<String>, serde_json::Error>)
    ensures
        res is Ok <==> strings_of_json(text@) is Some,
        res matches Ok(items) ==> strings_of_json(text@) == Some(texts_of(items@)),
{
    serde_json::from_str(text)
}

/// serde_json writes every string of the list, in order, separated by commas:
/// one more string adds a comma and the new string, quoted, before the `]`.
pub proof fn lemma_json_of_strings_step(items: Seq<Seq<char>>, t: Seq<char>)
    ensures
        json_of_strings(Seq::<Seq<char>>::empty()) == seq!['[', ']'],
        json_of_strings(seq![t]) == seq!['[', '"'] + json_escaped(t) + seq!['"', ']'],
        items.len() > 0 ==> json_of_strings(items.push(t)) == seq!['['] + json_items(items)
            + seq![',', '"'] + json_escaped(t) + seq!['"', ']'],
{
    assert(items.push(t).drop_last() =~= items);
    assert(json_of_strings(Seq::<Seq<char>>::empty()) =~= seq!['[', ']']);
    assert(json_of_strings(seq![t]) =~= seq!['[', '"'] + json_escaped(t) + seq!['"', ']']);
    if items.len() > 0 {
        let p = items.push(t);
        assert(p.last() == t);
        assert(json_items(p) == json_items(items) + seq![','] + seq!['"'] + json_escaped(t)
            + seq!['"']);
        assert(json_of_strings(p) =~= seq!['['] + json_items(items) + seq![',', '"']
            + json_escaped(t) + seq!['"', ']']);
    }
}

} // verus!
