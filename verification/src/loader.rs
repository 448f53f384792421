use vstd::prelude::*;

use crate::errors::VoidTimeError;
use crate::store::{Instant, Interval, IntervalStore};
use crate::trusted::{
    decode_utf8_bytes, json_rows, opt_text, parse_json_rows, parse_rfc3339, rfc3339_instant,
    row_model, rows_model,
};

verus! {

/// The value of the first member of a parsed object whose key is `key`
/// (`None` inside when that member is not a string); `None` overall when no
/// member has that key.
pub open spec fn spec_field(row: Seq<(Seq<char>, Option<Seq<char>>)>, key: Seq<char>) -> Option<
    Option<Seq<char>>,
>
    decreases row.len(),
{
    if row.len() == 0 {
        None
    } else if row[0].0 == key {
        Some(row[0].1)
    } else {
        spec_field(row.drop_first(), key)
    }
}

/// The instant an RFC 3339 text denotes, as the library stores it.
pub open spec fn spec_instant_of_text(text: Seq<char>) -> Option<Instant> {
    match rfc3339_instant(text) {
        Some(pair) => Some(Instant { secs: pair.0, offset_secs: pair.1 }),
        None => None,
    }
}

/// The interval one parsed object describes: its `start` and `end` members,
/// each a string holding a valid RFC 3339 timestamp; `None` when either is
/// missing, not a string, or malformed. Members under any other key are
/// not read, whatever their type.
pub open spec fn spec_interval_of_row(row: Seq<(Seq<char>, Option<Seq<char>>)>) -> Option<
    Interval,
> {
    match (spec_field(row, "start"@), spec_field(row, "end"@)) {
        (Some(Some(s)), Some(Some(e))) => match (spec_instant_of_text(s), spec_instant_of_text(
            e,
        )) {
            (Some(si), Some(ei)) => Some(Interval { start: si, end: ei }),
            _ => None,
        },
        _ => None,
    }
}

/// Whether every parsed object describes an interval.
pub open spec fn rows_all_ok(rows: Seq<Seq<(Seq<char>, Option<Seq<char>>)>>) -> bool {
    forall|j: int| 0 <= j < rows.len() ==> spec_interval_of_row(rows[j]) is Some
}

/// The intervals the parsed objects describe, in file order.
pub open spec fn spec_intervals_of_rows(rows: Seq<Seq<(Seq<char>, Option<Seq<char>>)>>) -> Seq<
    Interval,
> {
    Seq::new(rows.len(), |j: int| spec_interval_of_row(rows[j]).unwrap())
}

/// What loading a text yields: the intervals in file order when the text is
/// the expected JSON shape and every timestamp parses, a parse failure
/// otherwise.
pub open spec fn spec_load(text: Seq<char>) -> Result<Seq<Interval>, VoidTimeError> {
    match json_rows(text) {
        Some(rows) => if rows_all_ok(rows) {
            Ok(spec_intervals_of_rows(rows))
        } else {
            Err(VoidTimeError::ParseError)
        },
        None => Err(VoidTimeError::ParseError),
    }
}

/// What loading a byte buffer yields: the buffer must be valid UTF-8, then
/// its decoding loads as a text does.
pub open spec fn spec_load_bytes(bytes: Seq<u8>) -> Result<Seq<Interval>, VoidTimeError> {
    if vstd::utf8::valid_utf8(bytes) {
        spec_load(vstd::utf8::decode_utf8(bytes))
    } else {
        Err(VoidTimeError::EncodingError)
    }
}

/// Parses one RFC 3339 timestamp into the instant it denotes; rejects a
/// malformed timestamp.
pub fn parse_instant(text: &str) -> (r: Result<Instant, VoidTimeError>)
    ensures
        match spec_instant_of_text(text@) {
            Some(inst) => r == Ok::<Instant, VoidTimeError>(inst),
            None => r == Err::<Instant, VoidTimeError>(VoidTimeError::ParseError),
        },
{
    match parse_rfc3339(text) {
        Some(pair) => Ok(Instant { secs: pair.0, offset_secs: pair.1 }),
        None => Err(VoidTimeError::ParseError),
    }
}

/// The first member of the row with the given key, if any; the inner value
/// is `None` for a member that is not a string.
fn find_field(row: &Vec<(String, Option<String>)>, key: &String) -> (r: Option<Option<String>>)
    ensures
        match r {
            Some(v) => spec_field(row_model(*row), key@) == Some(opt_text(v)),
            None => spec_field(row_model(*row), key@) is None,
        },
{
    let ghost rv = row_model(*row);
    proof {
        assert(rv.subrange(0, rv.len() as int) =~= rv);
    }
    let n = row.len();
    let mut j: usize = 0;
    while j < n
        invariant
            rv == row_model(*row),
            n == row@.len(),
            rv.len() == row@.len(),
            j <= n,
            spec_field(rv, key@) == spec_field(rv.subrange(j as int, rv.len() as int), key@),
        decreases n - j,
    {
        let pair = &row[j];
        let ghost tail = rv.subrange(j as int, rv.len() as int);
        assert(tail[0] == rv[j as int]);
        if pair.0 == *key {
            assert(spec_field(tail, key@) == Some(rv[j as int].1));
            let value = match &pair.1 {
                Some(s) => Some(s.clone()),
                None => None,
            };
            assert(opt_text(value) == rv[j as int].1);
            return Some(value);
        }
        assert(tail.drop_first() =~= rv.subrange(j + 1, rv.len() as int));
        j = j + 1;
    }
    assert(rv.subrange(j as int, rv.len() as int) =~= Seq::<
        (Seq<char>, Option<Seq<char>>),
    >::empty());
    None
}

/// Loads interval descriptions from a JSON text: an array of objects, each
/// with RFC 3339 `start` and `end` members, in file order.
pub fn load_from_text(text: &str) -> (r: Result<IntervalStore, VoidTimeError>)
    ensures
        match r {
            Ok(store) => spec_load(text@) == Ok::<Seq<Interval>, VoidTimeError>(store@),
            Err(e) => spec_load(text@) == Err::<Seq<Interval>, VoidTimeError>(e),
        },
{
    let rows = match parse_json_rows(text) {
        Some(rows) => rows,
        None => {
            return Err(VoidTimeError::ParseError);
        },
    };
    let ghost rm = rows_model(rows);
    let start_key: String = "start".to_owned();
    let end_key: String = "end".to_owned();
    let n = rows.len();
    let mut out: Vec<Interval> = Vec::new();
    let mut i: usize = 0;
    while i < n
        invariant
            rm == rows_model(rows),
            json_rows(text@) == Some(rm),
            rm.len() == rows@.len(),
            n == rows@.len(),
            i <= n,
            out@.len() == i as int,
            start_key@ == "start"@,
            end_key@ == "end"@,
            forall|j: int|
                0 <= j < i ==> spec_interval_of_row(rm[j]) == Some(#[trigger] out@[j]),
        decreases n - i,
    {
        let row = &rows[i];
        assert(row_model(*row) == rm[i as int]);
        let start_text = match find_field(row, &start_key) {
            Some(Some(v)) => v,
            _ => {
                assert(spec_interval_of_row(rm[i as int]) is None);
                return Err(VoidTimeError::ParseError);
            },
        };
        let end_text = match find_field(row, &end_key) {
            Some(Some(v)) => v,
            _ => {
                assert(spec_interval_of_row(rm[i as int]) is None);
                return Err(VoidTimeError::ParseError);
            },
        };
        let start_inst = match parse_instant(start_text.as_str()) {
            Ok(v) => v,
            Err(_) => {
                assert(spec_interval_of_row(rm[i as int]) is None);
                return Err(VoidTimeError::ParseError);
            },
        };
        let end_inst = match parse_instant(end_text.as_str()) {
            Ok(v) => v,
            Err(_) => {
                assert(spec_interval_of_row(rm[i as int]) is None);
                return Err(VoidTimeError::ParseError);
            },
        };
        assert(spec_interval_of_row(rm[i as int]) == Some(
            Interval { start: start_inst, end: end_inst },
        ));
        out.push(Interval { start: start_inst, end: end_inst });
        i = i + 1;
    }
    proof {
        assert forall|j: int| 0 <= j < rm.len() implies spec_interval_of_row(rm[j]) is Some by {
            assert(spec_interval_of_row(rm[j]) == Some(out@[j]));
        }
        assert(out@ =~= spec_intervals_of_rows(rm));
    }
    Ok(IntervalStore::new(out))
}

/// Loads interval descriptions from a byte buffer: the buffer is decoded as
/// UTF-8 and then loaded as a text; rejects bytes that are not UTF-8.
pub fn load_from_bytes(bytes: &[u8]) -> (r: Result<IntervalStore, VoidTimeError>)
    ensures
        match r {
            Ok(store) => spec_load_bytes(bytes@) == Ok::<Seq<Interval>, VoidTimeError>(store@),
            Err(e) => spec_load_bytes(bytes@) == Err::<Seq<Interval>, VoidTimeError>(e),
        },
{
    match decode_utf8_bytes(bytes) {
        Some(text) => load_from_text(text.as_str()),
        None => Err(VoidTimeError::EncodingError),
    }
}

} // verus!
