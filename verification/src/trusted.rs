use vstd::prelude::*;

use std::fmt::Write;

verus! {

/// The outcome of reading a text as a JSON array of objects: for each
/// object, its members as (key, value) pairs in ascending key order, where a
/// string member carries its characters and a member of any other type is
/// `None`; a repeated key keeps the last member's value. `None` overall when
/// the text is not a JSON array of objects.
pub uninterp spec fn json_rows(text: Seq<char>) -> Option<
    Seq<Seq<(Seq<char>, Option<Seq<char>>)>>,
>;

/// The instant an RFC 3339 date-and-time text denotes, as whole seconds
/// since the Unix epoch in UTC (any sub-second part is dropped) paired with
/// the UTC offset (seconds east) the text carries; `None` when the text is
/// not a valid RFC 3339 date-and-time.
pub uninterp spec fn rfc3339_instant(text: Seq<char>) -> Option<(i64, i32)>;

/// The rendering of the instant `secs`, shifted to the UTC offset
/// `offset_secs`, under a strftime-style pattern; `None` when the pattern
/// cannot be rendered, the offset is out of range, or the seconds do not
/// denote a representable instant.
pub uninterp spec fn formatted_instant(secs: i64, offset_secs: i32, pattern: Seq<char>) -> Option<
    Seq<char>,
>;

/// Whether a count of Unix seconds denotes a representable instant.
pub uninterp spec fn timestamp_in_range(secs: i64) -> bool;

/// The characters of an optional text.
pub open spec fn opt_text(v: Option<String>) -> Option<Seq<char>> {
    match v {
        Some(s) => Some(s@),
        None => None,
    }
}

/// The (key, value) pairs of one parsed object, as character sequences; a
/// `None` value stands for a member that is not a string.
pub open spec fn row_model(row: Vec<(String, Option<String>)>) -> Seq<
    (Seq<char>, Option<Seq<char>>),
> {
    row@.map_values(|p: (String, Option<String>)| (p.0@, opt_text(p.1)))
}

/// The parsed objects of a whole document, as character sequences.
pub open spec fn rows_model(rows: Vec<Vec<(String, Option<String>)>>) -> Seq<
    Seq<(Seq<char>, Option<Seq<char>>)>,
> {
    rows@.map_values(|r: Vec<(String, Option<String>)>| row_model(r))
}

/// Relies on serde_json::from_str, deserializing into a sequence of maps
/// with string keys and arbitrary JSON values: the text parses exactly when
/// it is a JSON array of objects, and each object comes back as its members
/// in ascending key order, a string member with its characters, a member of
/// any other type as `None`, a repeated key with the last member's value
/// (the map target keeps one entry per key). The result depends on the text
/// alone.
#[verifier::external_body]
pub(crate) fn parse_json_rows(text: &str) -> (r: Option<Vec<Vec<(String, Option<String>)>>>)
    ensures
        match r {
            Some(rows) => json_rows(text@) == Some(rows_model(rows)),
            None => json_rows(text@) is None,
        },
{
    let parsed: Vec<std::collections::BTreeMap<String, serde_json::Value>> =
        serde_json::from_str(text).ok()?;
    Some(parsed.into_iter().map(|m| {
        m.into_iter().map(|(k, v)| match v {
            serde_json::Value::String(s) => (k, Some(s)),
            _ => (k, None),
        }).collect::<Vec<(String, Option<String>)>>()
    }).collect())
}

/// Relies on chrono's DateTime::parse_from_rfc3339: whether the text is a
/// valid RFC 3339 date-and-time, and which instant and offset it denotes,
/// depend on the text alone.
#[verifier::external_body]
pub(crate) fn parse_rfc3339(text: &str) -> (r: Option<(i64, i32)>)
    ensures
        r == rfc3339_instant(text@),
{
    match chrono::DateTime::parse_from_rfc3339(text) {
        Ok(dt) => Some((dt.timestamp(), dt.offset().local_minus_utc())),
        Err(_) => None,
    }
}

/// Relies on chrono's DateTime::format with strftime patterns: the rendering
/// depends on the instant, the offset and the pattern alone. The error arm of
/// `write!` covers a pattern chrono cannot render; FixedOffset::east_opt and
/// DateTime::from_timestamp refuse an out-of-range offset or second count.
#[verifier::external_body]
pub(crate) fn format_instant(secs: i64, offset_secs: i32, pattern: &str) -> (r: Option<String>)
    ensures
        (match r {
            Some(s) => Some(s@),
            None => None,
        }) == formatted_instant(secs, offset_secs, pattern@),
{
    let offset = chrono::FixedOffset::east_opt(offset_secs)?;
    let instant = chrono::DateTime::from_timestamp(secs, 0)?.with_timezone(&offset);
    let mut rendered = String::new();
    match write!(&mut rendered, "{}", instant.format(pattern)) {
        Ok(()) => Some(rendered),
        Err(_) => None,
    }
}

/// Relies on chrono's DateTime::from_timestamp, which documents returning
/// `None` exactly on an out-of-range number of seconds.
#[verifier::external_body]
pub(crate) fn check_timestamp(secs: i64) -> (r: bool)
    ensures
        r == timestamp_in_range(secs),
{
    chrono::DateTime::<chrono::Utc>::from_timestamp(secs, 0).is_some()
}

/// Relies on std's str::from_utf8, documented to return Ok exactly when the
/// bytes are valid UTF-8; vstd gives it no specification, but it defines
/// UTF-8 validity and decoding, which this contract uses.
#[verifier::external_body]
pub(crate) fn decode_utf8_bytes(bytes: &[u8]) -> (r: Option<String>)
    ensures
        match r {
            Some(s) => vstd::utf8::valid_utf8(bytes@) && s@ == vstd::utf8::decode_utf8(bytes@),
            None => !vstd::utf8::valid_utf8(bytes@),
        },
{
    match std::str::from_utf8(bytes) {
        Ok(s) => Some(s.to_string()),
        Err(_) => None,
    }
}

/// Whether a text parses as a URL. Parsing follows the URL standard and
/// depends on the text alone.
pub uninterp spec fn url_parse_ok(locator: Seq<char>) -> bool;

/// The scheme of the URL a text parses as, assuming it parses; it too
/// depends on the text alone.
pub uninterp spec fn url_scheme(locator: Seq<char>) -> Seq<char>;

/// Relies on url::Url::parse and Url::scheme, whose outcomes depend on the
/// text alone, and on Url::to_file_path, which converts the URL to a local
/// path by platform rules: the conversion's outcome is handed on but not
/// pinned. `Some` comes back exactly when the text parses as a URL; the
/// first component is then its scheme, and the second the local path the
/// platform gives it, if any.
#[verifier::external_body]
pub(crate) fn parse_url(locator: &str) -> (r: Option<(String, Option<String>)>)
    ensures
        (r is Some) == url_parse_ok(locator@),
        r matches Some(p) ==> p.0@ == url_scheme(locator@),
{
    let parsed = url::Url::parse(locator).ok()?;
    let scheme = parsed.scheme().to_owned();
    let path = match parsed.to_file_path() {
        Ok(p) => p.to_str().map(|s| s.to_owned()),
        Err(()) => None,
    };
    Some((scheme, path))
}

} // verus!
