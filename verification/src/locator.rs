use vstd::prelude::*;

use crate::errors::VoidTimeError;
use crate::trusted::{parse_url, url_parse_ok, url_scheme};

verus! {

/// The platform-independent part of what a file-reference locator must be:
/// it parses as a URL and its scheme is `file`.
pub open spec fn spec_locator_ok(locator: Seq<char>) -> bool {
    url_parse_ok(locator) && url_scheme(locator) == "file"@
}

/// Resolves a file-reference locator (a `file://` URL) into the filesystem
/// path it denotes. Resolution fails, always with `InvalidLocatorError`,
/// whenever the locator does not parse as a URL or its scheme is not
/// `file`; it can also fail when the platform's path rules give the URL no
/// local path, the one part the contract leaves open, the path itself being
/// platform-dependent.
pub fn resolve(locator: &str) -> (r: Result<String, VoidTimeError>)
    ensures
        r is Err ==> r == Err::<String, VoidTimeError>(VoidTimeError::InvalidLocatorError),
        !spec_locator_ok(locator@) ==> r is Err,
{
    let parsed = match parse_url(locator) {
        Some(p) => p,
        None => {
            return Err(VoidTimeError::InvalidLocatorError);
        },
    };
    let file_scheme: String = "file".to_owned();
    if !(parsed.0 == file_scheme) {
        return Err(VoidTimeError::InvalidLocatorError);
    }
    match parsed.1 {
        Some(path) => Ok(path),
        None => Err(VoidTimeError::InvalidLocatorError),
    }
}

/// Resolves a locator handed across the boundary as a byte buffer: the
/// buffer is decoded as UTF-8 first (rejected with `EncodingError`
/// otherwise), then resolved as `resolve` does.
pub fn resolve_bytes(locator: &[u8]) -> (r: Result<String, VoidTimeError>)
    ensures
        !vstd::utf8::valid_utf8(locator@) ==> r == Err::<String, VoidTimeError>(
            VoidTimeError::EncodingError,
        ),
        vstd::utf8::valid_utf8(locator@) && r is Err ==> r == Err::<String, VoidTimeError>(
            VoidTimeError::InvalidLocatorError,
        ),
        vstd::utf8::valid_utf8(locator@) && !spec_locator_ok(vstd::utf8::decode_utf8(locator@))
            ==> r is Err,
{
    match crate::trusted::decode_utf8_bytes(locator) {
        Some(text) => resolve(text.as_str()),
        None => Err(VoidTimeError::EncodingError),
    }
}

} // verus!
