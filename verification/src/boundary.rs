use vstd::prelude::*;

use crate::errors::VoidTimeError;
use crate::loader;
use crate::query;
use crate::store::{Interval, IntervalStore};
use crate::trusted::{check_timestamp, decode_utf8_bytes, formatted_instant, timestamp_in_range};

verus! {

/// The opaque handle the host holds: the exclusive owner of one loaded
/// interval store, with an explicit Live/Destroyed tag. Every boundary
/// operation checks the tag, so using a destroyed handle is a reported
/// `UseAfterDestroy`, never undefined behaviour.
pub struct VoidTimeCollector {
    store: IntervalStore,
    live: bool,
}

/// A string buffer whose ownership passed to the host at return time. It is
/// a type of its own, distinct from any string the host passes in, so the
/// release operation can only ever be applied to library-allocated strings.
pub struct OwnedString {
    content: Option<String>,
}

impl OwnedString {
    /// The characters the buffer holds, or `None` once it was released.
    pub closed spec fn text(&self) -> Option<Seq<char>> {
        match self.content {
            Some(s) => Some(s@),
            None => None,
        }
    }

    fn new(content: String) -> (r: OwnedString)
        ensures
            r.text() == Some(content@),
    {
        OwnedString { content: Some(content) }
    }

    /// Reads the buffer without releasing it; `None` once released.
    pub fn value(&self) -> (r: Option<&String>)
        ensures
            match self.text() {
                Some(t) => r matches Some(s) && s@ == t,
                None => r is None,
            },
    {
        self.content.as_ref()
    }
}

/// Decodes a byte buffer handed across the boundary as UTF-8 text; rejected
/// with `EncodingError` exactly when the bytes are not valid UTF-8.
pub fn decode_text(bytes: &[u8]) -> (r: Result<String, VoidTimeError>)
    ensures
        match r {
            Ok(s) => vstd::utf8::valid_utf8(bytes@) && s@ == vstd::utf8::decode_utf8(bytes@),
            Err(e) => !vstd::utf8::valid_utf8(bytes@) && e == VoidTimeError::EncodingError,
        },
{
    match decode_utf8_bytes(bytes) {
        Some(s) => Ok(s),
        None => Err(VoidTimeError::EncodingError),
    }
}

/// Releases a library-allocated string: the first release frees the buffer,
/// and releasing the same string again is a safe no-op.
pub fn free_string(s: &mut OwnedString)
    ensures
        final(s).text() is None,
{
    s.content = None;
}

impl VoidTimeCollector {
    /// Whether the handle is Live (Destroyed otherwise).
    pub closed spec fn is_live(&self) -> bool {
        self.live
    }

    /// The intervals the handle owns.
    pub closed spec fn dates(&self) -> Seq<Interval> {
        self.store@
    }

    /// Builds a Live handle owning the intervals a JSON text describes.
    pub fn from_json_text(text: &str) -> (r: Result<VoidTimeCollector, VoidTimeError>)
        ensures
            match r {
                Ok(c) => c.is_live() && loader::spec_load(text@) == Ok::<
                    Seq<Interval>,
                    VoidTimeError,
                >(c.dates()),
                Err(e) => loader::spec_load(text@) == Err::<Seq<Interval>, VoidTimeError>(e),
            },
    {
        match loader::load_from_text(text) {
            Ok(store) => Ok(VoidTimeCollector { store, live: true }),
            Err(e) => Err(e),
        }
    }

    /// Builds a Live handle from a byte buffer, decoded as UTF-8 first.
    pub fn from_json_bytes(bytes: &[u8]) -> (r: Result<VoidTimeCollector, VoidTimeError>)
        ensures
            match r {
                Ok(c) => c.is_live() && loader::spec_load_bytes(bytes@) == Ok::<
                    Seq<Interval>,
                    VoidTimeError,
                >(c.dates()),
                Err(e) => loader::spec_load_bytes(bytes@) == Err::<Seq<Interval>, VoidTimeError>(
                    e,
                ),
            },
    {
        match loader::load_from_bytes(bytes) {
            Ok(store) => Ok(VoidTimeCollector { store, live: true }),
            Err(e) => Err(e),
        }
    }
}

/// Destroys a handle: the owned store is dropped and the handle becomes
/// Destroyed, permanently. Destroying an already-destroyed handle is a
/// no-op; every later operation on the handle reports `UseAfterDestroy`.
pub fn void_time_collector_free(collector: &mut VoidTimeCollector)
    ensures
        !final(collector).is_live(),
        final(collector).dates().len() == 0,
{
    collector.live = false;
    collector.store = IntervalStore::new(Vec::new());
}

/// The index query across the boundary: checks the handle's tag, then that
/// the timestamp denotes a representable instant, then scans.
pub fn get_void_time_index(collector: &VoidTimeCollector, date: i64) -> (r: Result<
    usize,
    VoidTimeError,
>)
    ensures
        !collector.is_live() ==> r == Err::<usize, VoidTimeError>(VoidTimeError::UseAfterDestroy),
        collector.is_live() && !timestamp_in_range(date) ==> r == Err::<usize, VoidTimeError>(
            VoidTimeError::InvalidTimestampError,
        ),
        collector.is_live() && timestamp_in_range(date) ==> (r matches Ok(i) && i as int
            == query::spec_index_for_instant(collector.dates(), date)),
{
    if !collector.live {
        return Err(VoidTimeError::UseAfterDestroy);
    }
    if !check_timestamp(date) {
        return Err(VoidTimeError::InvalidTimestampError);
    }
    Ok(query::index_for_instant(&collector.store, date))
}

/// The membership query across the boundary: tag, then timestamp, then
/// index, as the in-process query engine answers it.
pub fn check_is_in_void_time(collector: &VoidTimeCollector, index: usize, target_date: i64) -> (r:
    Result<bool, VoidTimeError>)
    ensures
        !collector.is_live() ==> r == Err::<bool, VoidTimeError>(VoidTimeError::UseAfterDestroy),
        collector.is_live() && !timestamp_in_range(target_date) ==> r == Err::<
            bool,
            VoidTimeError,
        >(VoidTimeError::InvalidTimestampError),
        collector.is_live() && timestamp_in_range(target_date) && index >= collector.dates().len()
            ==> r == Err::<bool, VoidTimeError>(VoidTimeError::IndexOutOfRange),
        collector.is_live() && timestamp_in_range(target_date) && index < collector.dates().len()
            ==> r == Ok::<bool, VoidTimeError>(
            query::spec_in_interval(collector.dates()[index as int], target_date),
        ),
{
    if !collector.live {
        return Err(VoidTimeError::UseAfterDestroy);
    }
    if !check_timestamp(target_date) {
        return Err(VoidTimeError::InvalidTimestampError);
    }
    query::is_within(&collector.store, index, target_date)
}

/// The start-formatting query across the boundary: tag, then the pattern
/// bytes decoded as UTF-8, then index; the rendered text comes back as a
/// fresh host-owned string.
pub fn get_start_date_by_index(collector: &VoidTimeCollector, index: usize, format: &[u8]) -> (r:
    Result<OwnedString, VoidTimeError>)
    ensures
        !collector.is_live() ==> r == Err::<OwnedString, VoidTimeError>(
            VoidTimeError::UseAfterDestroy,
        ),
        collector.is_live() && !vstd::utf8::valid_utf8(format@) ==> r == Err::<
            OwnedString,
            VoidTimeError,
        >(VoidTimeError::EncodingError),
        collector.is_live() && vstd::utf8::valid_utf8(format@) && index >= collector.dates().len()
            ==> r == Err::<OwnedString, VoidTimeError>(VoidTimeError::IndexOutOfRange),
        collector.is_live() && vstd::utf8::valid_utf8(format@) && index < collector.dates().len()
            ==> match formatted_instant(
            collector.dates()[index as int].start.secs,
            collector.dates()[index as int].start.offset_secs,
            vstd::utf8::decode_utf8(format@),
        ) {
            Some(t) => r matches Ok(s) && s.text() == Some(t),
            None => r == Err::<OwnedString, VoidTimeError>(VoidTimeError::ParseError),
        },
{
    if !collector.live {
        return Err(VoidTimeError::UseAfterDestroy);
    }
    let pattern = match decode_utf8_bytes(format) {
        Some(p) => p,
        None => {
            return Err(VoidTimeError::EncodingError);
        },
    };
    match query::format_start(&collector.store, index, pattern.as_str()) {
        Ok(s) => Ok(OwnedString::new(s)),
        Err(e) => Err(e),
    }
}

/// As `get_start_date_by_index`, rendering the interval's `end`.
pub fn get_end_date_by_index(collector: &VoidTimeCollector, index: usize, format: &[u8]) -> (r:
    Result<OwnedString, VoidTimeError>)
    ensures
        !collector.is_live() ==> r == Err::<OwnedString, VoidTimeError>(
            VoidTimeError::UseAfterDestroy,
        ),
        collector.is_live() && !vstd::utf8::valid_utf8(format@) ==> r == Err::<
            OwnedString,
            VoidTimeError,
        >(VoidTimeError::EncodingError),
        collector.is_live() && vstd::utf8::valid_utf8(format@) && index >= collector.dates().len()
            ==> r == Err::<OwnedString, VoidTimeError>(VoidTimeError::IndexOutOfRange),
        collector.is_live() && vstd::utf8::valid_utf8(format@) && index < collector.dates().len()
            ==> match formatted_instant(
            collector.dates()[index as int].end.secs,
            collector.dates()[index as int].end.offset_secs,
            vstd::utf8::decode_utf8(format@),
        ) {
            Some(t) => r matches Ok(s) && s.text() == Some(t),
            None => r == Err::<OwnedString, VoidTimeError>(VoidTimeError::ParseError),
        },
{
    if !collector.live {
        return Err(VoidTimeError::UseAfterDestroy);
    }
    let pattern = match decode_utf8_bytes(format) {
        Some(p) => p,
        None => {
            return Err(VoidTimeError::EncodingError);
        },
    };
    match query::format_end(&collector.store, index, pattern.as_str()) {
        Ok(s) => Ok(OwnedString::new(s)),
        Err(e) => Err(e),
    }
}

} // verus!
