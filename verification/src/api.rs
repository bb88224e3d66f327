//! The entry points as a foreign caller sees them: every call answers with
//! one status code, and matches reach the caller through the callback
//! alone.

use crate::dispatch::argument;
use crate::plan::{delivers, search_plan};
use crate::status::{report, result_of, SearchStatusCode};
use crate::tree::PathTarget;
use crate::types::{callable, SearchResult};
use vstd::prelude::*;

verus! {

/// Whether `status` answers a call with these arguments: the status that
/// stands for what the dispatcher returns for them.
pub open spec fn answers_call<F: Fn(SearchResult) -> bool>(
    filename: Option<&[u8]>,
    search_text: Option<&[u8]>,
    result_callback: Option<F>,
    found: PathTarget,
    status: SearchStatusCode,
) -> bool {
    match result_callback {
        Some(callback) => delivers(
            callback,
            search_plan(argument(filename), argument(search_text), true, found),
            result_of(status),
        ),
        None => status == search_plan(argument(filename), argument(search_text), false, found).end,
    }
}

/// Searches the file or the directory that `filename` names and answers
/// with the status of the search: `Success` only when the whole search
/// went through without a failure.
pub fn search_path<F: Fn(SearchResult) -> bool + Copy>(
    filename: Option<&[u8]>,
    search_text: Option<&[u8]>,
    result_callback: Option<F>,
    found: &PathTarget,
) -> (status: SearchStatusCode)
    requires
        result_callback matches Some(callback) ==> callable(callback),
    ensures
        answers_call(filename, search_text, result_callback, *found, status),
        filename is None ==> status == SearchStatusCode::MissingFilename,
        filename is Some && search_text is None ==> status == SearchStatusCode::MissingSearchText,
        filename is Some && search_text is Some && result_callback is None ==> status
            == SearchStatusCode::MissingCallback,
        status != SearchStatusCode::ErrorFromRipgrep,
{
    report(crate::dispatch::search_path(filename, search_text, result_callback, found))
}

/// The older name of [`search_path`] for a single file; it does the same.
pub fn search_file<F: Fn(SearchResult) -> bool + Copy>(
    filename: Option<&[u8]>,
    search_text: Option<&[u8]>,
    result_callback: Option<F>,
    found: &PathTarget,
) -> (status: SearchStatusCode)
    requires
        result_callback matches Some(callback) ==> callable(callback),
    ensures
        answers_call(filename, search_text, result_callback, *found, status),
        status != SearchStatusCode::ErrorFromRipgrep,
{
    search_path(filename, search_text, result_callback, found)
}

/// The older name of [`search_path`] for a directory; it does the same.
pub fn search_dir<F: Fn(SearchResult) -> bool + Copy>(
    filename: Option<&[u8]>,
    search_text: Option<&[u8]>,
    result_callback: Option<F>,
    found: &PathTarget,
) -> (status: SearchStatusCode)
    requires
        result_callback matches Some(callback) ==> callable(callback),
    ensures
        answers_call(filename, search_text, result_callback, *found, status),
        status != SearchStatusCode::ErrorFromRipgrep,
{
    search_path(filename, search_text, result_callback, found)
}

} // verus!
