//! The dispatcher: one file, a directory walk, or a whole call.
//!
//! Each function here runs the plan that `plan` defines for its arguments,
//! handing every record to the callback and stopping at the first failure.

use crate::engine::{find_lines, pattern_compiles, CompiledPattern, FoundLines};
use crate::parse::{parse_path, parse_search_text};
use crate::plan::{
    bytes_of, consistent, delivers, dir_plan, entry_plan, file_plan, lemma_failure_codes,
    lemma_run_in_a_row, lemma_run_prefix, lemma_run_success, lemma_stop_delivers,
    lemma_walk_fails, lines_plan, reported_name, run, search_plan, stop, walk_plan,
};
use crate::status::{result_of, SearchStatusCode};
use crate::tree::{
    is_hidden, lemma_pruned_while_skipping, lemma_skipping_step, skipping_at, text_of,
    EntryKind, PathTarget, WalkEntry,
};
use crate::types::{callable, may_answer, SearchResult, SearchResultCallbackSink};
use vstd::prelude::*;
use vstd::utf8::{decode_utf8, valid_utf8};

verus! {

/// Hands the lines that a search found to the sink's callback, one record
/// for each line and in the order found, until the callback refuses one.
///
/// A refusal ends the delivery with `ErrorFromCallback`; so does a search
/// that did not complete, once its lines have been delivered.
pub fn deliver<F: Fn(SearchResult) -> bool>(
    sink: &mut SearchResultCallbackSink<F>,
    found: &FoundLines,
) -> (result: Result<(), SearchStatusCode>)
    requires
        callable(old(sink).0),
    ensures
        *final(sink) == *old(sink),
        delivers(old(sink).0, lines_plan(old(sink).file_name(), found@), result),
{
    let ghost plan = lines_plan(sink.file_name(), found@);
    let n = found.lines.len();
    let mut i: usize = 0;
    while i < n
        invariant
            i <= n,
            n == found.lines.len(),
            *sink == *old(sink),
            callable(sink.0),
            plan == lines_plan(sink.file_name(), found@),
            forall|j: int| 0 <= j < i ==> may_answer(sink.0, #[trigger] plan.records[j], true),
        decreases n - i,
    {
        let line = &found.lines[i];
        let reply = sink.matched(Some(line.line_number), line.bytes.as_slice());
        if reply.is_err() {
            proof {
                let answers = Seq::new((i + 1) as nat, |j: int| j < i);
                lemma_run_prefix(plan, answers, i as int);
                assert(answers.skip(i as int)[0] == answers[i as int]);
                assert(consistent(sink.0, plan, answers));
            }
            return Err(SearchStatusCode::ErrorFromCallback);
        }
        i += 1;
    }
    proof {
        let answers = Seq::new(n as nat, |j: int| true);
        lemma_run_prefix(plan, answers, n as int);
        assert(consistent(sink.0, plan, answers));
    }
    if found.completed {
        Ok(())
    } else {
        Err(SearchStatusCode::ErrorFromCallback)
    }
}

/// Searches one file and hands each matching line to `callback`, reported
/// under `file_name`.
///
/// A file that could not be read ends the search with `ErrorFromCallback`
/// before the callback has been handed anything.
pub fn search_file<F: Fn(SearchResult) -> bool>(
    file_name: Option<String>,
    contents: &Option<Vec<u8>>,
    matcher: &CompiledPattern,
    callback: F,
) -> (result: Result<(), SearchStatusCode>)
    requires
        callable(callback),
    ensures
        delivers(callback, file_plan(text_of(file_name), bytes_of(*contents), matcher@), result),
{
    match contents {
        Some(bytes) => {
            let found = find_lines(matcher, bytes.as_slice());
            let mut sink = SearchResultCallbackSink(callback, file_name);
            deliver(&mut sink, &found)
        },
        None => {
            proof {
                let plan = stop(SearchStatusCode::ErrorFromCallback);
                assert(consistent(callback, plan, Seq::<bool>::empty()));
            }
            Err(SearchStatusCode::ErrorFromCallback)
        },
    }
}

/// The name under which a file found in a walk is reported: its path, or
/// a fixed name where the path is not valid UTF-8.
fn name_for_report(path: &Option<String>) -> (name: String)
    ensures
        name@ == reported_name(*path),
{
    match path {
        Some(path) => path.clone(),
        None => "<unknown file>".to_owned(),
    }
}

/// Searches the files of a directory walk, given in pre-order, and hands
/// each matching line to `callback` with the file's path.
///
/// Entries under a hidden directory are passed over, and so is every hidden
/// entry; of the rest, the regular files are searched in the order of the
/// walk. The first failure ends the whole search: a point where the walk
/// failed with `ErrorCouldNotOpenFile`, a file that could not be searched
/// or a refusal of the callback with `ErrorFromCallback`.
pub fn search_dir<F: Fn(SearchResult) -> bool + Copy>(
    entries: &Vec<WalkEntry>,
    matcher: &CompiledPattern,
    callback: F,
) -> (result: Result<(), SearchStatusCode>)
    requires
        callable(callback),
    ensures
        delivers(callback, dir_plan(entries@, matcher@), result),
{
    let ghost list = entries@;
    let ghost pattern = matcher@;
    let ghost mut answers: Seq<bool> = Seq::empty();
    let mut skipping: Option<usize> = None;
    let n = entries.len();
    let mut i: usize = 0;
    while i < n
        invariant
            i <= n,
            n == entries.len(),
            list == entries@,
            pattern == matcher@,
            callable(callback),
            skipping_at(list, i as int, skipping),
            walk_plan(list, pattern, i as int).end == SearchStatusCode::Success,
            answers.len() == walk_plan(list, pattern, i as int).records.len(),
            forall|r: int| 0 <= r < answers.len() ==> answers[r],
            forall|r: int|
                0 <= r < answers.len() ==> may_answer(
                    callback,
                    #[trigger] walk_plan(list, pattern, i as int).records[r],
                    true,
                ),
        decreases n - i,
    {
        let entry = &entries[i];
        let ghost done = walk_plan(list, pattern, i as int);
        let ghost next = entry_plan(list, i as int, pattern);
        proof {
            lemma_pruned_while_skipping(list, i as int, skipping);
            lemma_skipping_step(list, i as int, skipping);
        }
        let inside_hidden = match skipping {
            Some(depth) => entry.depth > depth,
            None => false,
        };
        let mut outcome: Result<(), SearchStatusCode> = Ok(());
        let ghost mut given: Seq<bool> = Seq::empty();
        if !inside_hidden {
            let hidden = match &entry.kind {
                EntryKind::Failed => false,
                _ => match &entry.name {
                    Some(name) => is_hidden(Some(name.as_str())),
                    None => false,
                },
            };
            skipping = match &entry.kind {
                EntryKind::Directory if hidden => Some(entry.depth),
                _ => None,
            };
            if !hidden {
                match &entry.kind {
                    EntryKind::Failed => {
                        outcome = Err(SearchStatusCode::ErrorCouldNotOpenFile);
                    },
                    EntryKind::File(contents) => {
                        let file_name = name_for_report(&entry.path);
                        outcome = search_file(Some(file_name), contents, matcher, callback);
                        proof {
                            given = choose|given: Seq<bool>| #[trigger]
                                consistent(callback, next, given) && outcome == result_of(
                                    run(next, given).status,
                                );
                        }
                    },
                    _ => {},
                }
            }
        }
        proof {
            assert(consistent(callback, next, given) && outcome == result_of(
                run(next, given).status,
            ));
            lemma_run_in_a_row(callback, done, next, answers, given);
            answers = answers + given;
        }
        if outcome.is_err() {
            proof {
                lemma_walk_fails(callback, list, pattern, i + 1, answers);
            }
            return outcome;
        }
        proof {
            lemma_run_success(next, given);
        }
        i += 1;
    }
    proof {
        lemma_run_prefix(dir_plan(list, pattern), answers, answers.len() as int);
        assert(consistent(callback, dir_plan(list, pattern), answers));
    }
    Ok(())
}

/// The bytes of an argument that is present.
pub open spec fn argument(bytes: Option<&[u8]>) -> Option<Seq<u8>> {
    match bytes {
        Some(bytes) => Some(bytes@),
        None => None,
    }
}

/// Searches the file or the directory that `filename` names for the lines
/// that `search_text` matches, and hands each of them to `result_callback`.
/// `found` is what the caller found on disk under that name.
///
/// An absent argument is reported before anything is decoded, compiled or
/// searched: `MissingFilename`, `MissingSearchText` or `MissingCallback`,
/// in this order. A path that is not valid UTF-8, or that names nothing, is
/// reported as `ErrorCouldNotOpenFile`; a pattern that does not compile as
/// `ErrorBadPattern`, once the path has been found good; a path that names
/// neither a file nor a directory as `ErrorCouldNotOpenFile` again.
/// Otherwise the result is that of the search of the file or of the walk.
pub fn search_path<F: Fn(SearchResult) -> bool + Copy>(
    filename: Option<&[u8]>,
    search_text: Option<&[u8]>,
    result_callback: Option<F>,
    found: &PathTarget,
) -> (result: Result<(), SearchStatusCode>)
    requires
        result_callback matches Some(callback) ==> callable(callback),
    ensures
        match result_callback {
            Some(callback) => delivers(
                callback,
                search_plan(argument(filename), argument(search_text), true, *found),
                result,
            ),
            None => result == result_of(
                search_plan(argument(filename), argument(search_text), false, *found).end,
            ),
        },
        filename is None ==> result == Err::<(), SearchStatusCode>(
            SearchStatusCode::MissingFilename,
        ),
        filename is Some && search_text is None ==> result == Err::<(), SearchStatusCode>(
            SearchStatusCode::MissingSearchText,
        ),
        filename is Some && search_text is Some && result_callback is None ==> result == Err::<
            (),
            SearchStatusCode,
        >(SearchStatusCode::MissingCallback),
        filename is Some && search_text is Some && result_callback is Some && (!valid_utf8(
            filename->0@,
        ) || found is Missing) ==> result == Err::<(), SearchStatusCode>(
            SearchStatusCode::ErrorCouldNotOpenFile,
        ),
        filename is Some && search_text is Some && result_callback is Some && valid_utf8(
            filename->0@,
        ) && !(found is Missing) && !(valid_utf8(search_text->0@) && pattern_compiles(
            decode_utf8(search_text->0@),
        )) ==> result == Err::<(), SearchStatusCode>(SearchStatusCode::ErrorBadPattern),
        filename is Some && search_text is Some && result_callback is Some && valid_utf8(
            filename->0@,
        ) && found is Other && valid_utf8(search_text->0@) && pattern_compiles(
            decode_utf8(search_text->0@),
        ) ==> result == Err::<(), SearchStatusCode>(SearchStatusCode::ErrorCouldNotOpenFile),
        result is Err ==> result->Err_0 != SearchStatusCode::Success && result->Err_0
            != SearchStatusCode::ErrorFromRipgrep,
{
    if filename.is_none() {
        proof {
            if result_callback is Some {
                lemma_stop_delivers(result_callback->0, SearchStatusCode::MissingFilename);
            }
        }
        return Err(SearchStatusCode::MissingFilename);
    }
    if search_text.is_none() {
        proof {
            if result_callback is Some {
                lemma_stop_delivers(result_callback->0, SearchStatusCode::MissingSearchText);
            }
        }
        return Err(SearchStatusCode::MissingSearchText);
    }
    let callback = match result_callback {
        Some(callback) => callback,
        None => return Err(SearchStatusCode::MissingCallback),
    };
    if let Err(code) = parse_path(filename, found) {
        proof {
            lemma_stop_delivers(callback, code);
        }
        return Err(code);
    }
    let matcher = match parse_search_text(search_text) {
        Ok(matcher) => matcher,
        Err(code) => {
            proof {
                lemma_stop_delivers(callback, code);
            }
            return Err(code);
        },
    };
    match found {
        PathTarget::File(contents) => {
            let result = search_file(None, contents, &matcher, callback);
            proof {
                lemma_failure_codes(
                    callback,
                    argument(filename),
                    argument(search_text),
                    true,
                    *found,
                    result,
                );
            }
            result
        },
        PathTarget::Directory(entries) => {
            let result = search_dir(entries, &matcher, callback);
            proof {
                lemma_failure_codes(
                    callback,
                    argument(filename),
                    argument(search_text),
                    true,
                    *found,
                    result,
                );
            }
            result
        },
        _ => {
            proof {
                lemma_stop_delivers(callback, SearchStatusCode::ErrorCouldNotOpenFile);
            }
            Err(SearchStatusCode::ErrorCouldNotOpenFile)
        },
    }
}

} // verus!
