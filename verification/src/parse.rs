//! Turning the raw arguments of a call into checked values: the path as
//! text that names something on disk, the pattern as a compiled matcher.

use crate::engine::{compile, pattern_compiles, CompiledPattern};
use crate::status::SearchStatusCode;
use crate::tree::PathTarget;
use core::str::Utf8Error;
use vstd::prelude::*;
use vstd::string::StringSliceAdditionalSpecFns;
use vstd::utf8::{decode_utf8, encode_utf8_decode_utf8, valid_utf8};

verus! {

/// Why a byte string is not UTF-8; opaque to the verifier.
#[verifier::external_type_specification]
#[verifier::external_body]
pub struct ExUtf8Error(Utf8Error);

/// `core::str::from_utf8` succeeds exactly on the byte strings that are
/// valid UTF-8, and the text it returns is encoded by the very bytes given.
pub assume_specification[ core::str::from_utf8 ](v: &[u8]) -> (text: Result<&str, Utf8Error>)
    ensures
        text is Ok <==> valid_utf8(v@),
        text matches Ok(text) ==> text.spec_bytes() == v@,
;

/// Decodes a byte string as UTF-8 text.
pub fn to_string(bytes: &[u8]) -> (text: Result<String, Utf8Error>)
    ensures
        text is Ok <==> valid_utf8(bytes@),
        text matches Ok(text) ==> text@ == decode_utf8(bytes@),
{
    match core::str::from_utf8(bytes) {
        Ok(text) => {
            proof {
                encode_utf8_decode_utf8(text@);
            }
            Ok(text.to_owned())
        },
        Err(error) => Err(error),
    }
}

/// The path of a search as text, given what was `found` under it.
///
/// An absent path is reported as `MissingFilename` before anything else is
/// looked at. A path that is not valid UTF-8, or under which nothing was
/// found, is reported as `ErrorCouldNotOpenFile`. The text is used as it
/// was given.
pub fn parse_path(filename: Option<&[u8]>, found: &PathTarget) -> (path: Result<
    String,
    SearchStatusCode,
>)
    ensures
        filename is None ==> path == Err::<String, SearchStatusCode>(
            SearchStatusCode::MissingFilename,
        ),
        filename matches Some(bytes) ==> {
            if valid_utf8(bytes@) && !(found is Missing) {
                path is Ok && path->Ok_0@ == decode_utf8(bytes@)
            } else {
                path == Err::<String, SearchStatusCode>(SearchStatusCode::ErrorCouldNotOpenFile)
            }
        },
{
    let bytes = match filename {
        Some(bytes) => bytes,
        None => return Err(SearchStatusCode::MissingFilename),
    };
    let path = match to_string(bytes) {
        Ok(path) => path,
        Err(_) => return Err(SearchStatusCode::ErrorCouldNotOpenFile),
    };
    match found {
        PathTarget::Missing => Err(SearchStatusCode::ErrorCouldNotOpenFile),
        _ => Ok(path),
    }
}

/// The matcher for the pattern of a search.
///
/// An absent pattern is reported as `MissingSearchText`. A pattern that is
/// not valid UTF-8, or that the engine does not accept, is reported as
/// `ErrorBadPattern`.
pub fn parse_search_text(search_text: Option<&[u8]>) -> (matcher: Result<
    CompiledPattern,
    SearchStatusCode,
>)
    ensures
        search_text is None ==> matcher is Err && matcher->Err_0
            == SearchStatusCode::MissingSearchText,
        search_text matches Some(bytes) ==> {
            if valid_utf8(bytes@) && pattern_compiles(decode_utf8(bytes@)) {
                matcher is Ok && matcher->Ok_0@ == decode_utf8(bytes@)
            } else {
                matcher is Err && matcher->Err_0 == SearchStatusCode::ErrorBadPattern
            }
        },
{
    let bytes = match search_text {
        Some(bytes) => bytes,
        None => return Err(SearchStatusCode::MissingSearchText),
    };
    let text = match to_string(bytes) {
        Ok(text) => text,
        Err(_) => return Err(SearchStatusCode::ErrorBadPattern),
    };
    match compile(text.as_str()) {
        Ok(matcher) => Ok(matcher),
        Err(_) => Err(SearchStatusCode::ErrorBadPattern),
    }
}

} // verus!
