//! What holds of every search, stated over the plans that specify the
//! executable functions and proved from their definitions.

use crate::engine::{line_search, pattern_compiles};
use crate::plan::{
    always_answers, consistent, delivers, dir_plan, entry_plan, lemma_run_bounds,
    lemma_run_prefix, reported_name, run, search_plan, stop, walk_plan, Outcome, Plan,
};
use crate::status::{result_of, SearchStatusCode};
use crate::tree::{below, pruned, visited, PathTarget, WalkEntry};
use crate::types::SearchResult;
use vstd::prelude::*;
use vstd::utf8::{decode_utf8, valid_utf8};

verus! {

/// An absent argument decides the call by itself: whatever the other
/// arguments are, whatever lies on disk and whatever the callback would
/// answer, nothing is delivered and the status names the first argument
/// that is absent, the path before the pattern before the callback.
pub proof fn lemma_absent_arguments_decide(
    filename: Option<Seq<u8>>,
    search_text: Option<Seq<u8>>,
    has_callback: bool,
    found: PathTarget,
    answers: Seq<bool>,
)
    requires
        filename is None || search_text is None || !has_callback,
    ensures
        run(search_plan(filename, search_text, has_callback, found), answers) == (Outcome {
            delivered: 0,
            status: if filename is None {
                SearchStatusCode::MissingFilename
            } else if search_text is None {
                SearchStatusCode::MissingSearchText
            } else {
                SearchStatusCode::MissingCallback
            },
        }),
{
}

/// A path that names nothing ends the call with `ErrorCouldNotOpenFile`,
/// whether the pattern is good or not, and nothing is delivered.
pub proof fn lemma_missing_path_cannot_be_opened(
    filename: Seq<u8>,
    search_text: Seq<u8>,
    answers: Seq<bool>,
)
    ensures
        run(search_plan(Some(filename), Some(search_text), true, PathTarget::Missing), answers)
            == (Outcome { delivered: 0, status: SearchStatusCode::ErrorCouldNotOpenFile }),
{
}

/// A pattern that does not compile ends the call with `ErrorBadPattern`
/// wherever the path leads, and the callback is handed nothing.
pub proof fn lemma_bad_pattern_delivers_nothing(
    filename: Seq<u8>,
    search_text: Seq<u8>,
    found: PathTarget,
    answers: Seq<bool>,
)
    requires
        valid_utf8(filename),
        !(found is Missing),
        !valid_utf8(search_text) || !pattern_compiles(decode_utf8(search_text)),
    ensures
        run(search_plan(Some(filename), Some(search_text), true, found), answers) == (Outcome {
            delivered: 0,
            status: SearchStatusCode::ErrorBadPattern,
        }),
{
}

/// Against a callback that always answers `true`, a run delivers every
/// record of its plan and ends as the plan does.
pub proof fn lemma_accepting_callback<F: Fn(SearchResult) -> bool>(
    callback: F,
    plan: Plan,
    answers: Seq<bool>,
)
    requires
        always_answers(callback, true),
        consistent(callback, plan, answers),
    ensures
        answers.len() == plan.records.len(),
        forall|i: int| 0 <= i < answers.len() ==> answers[i],
        run(plan, answers) == (Outcome { delivered: plan.records.len(), status: plan.end }),
{
    assert forall|i: int| 0 <= i < answers.len() implies answers[i] by {
        let record = plan.records[i];
    }
    lemma_run_bounds(plan, answers);
    lemma_run_prefix(plan, answers, answers.len() as int);
}

/// The plan for a call with every argument present whose path names a
/// file that could be read.
pub open spec fn file_call(filename: Seq<u8>, search_text: Seq<u8>, contents: Vec<u8>) -> Plan {
    search_plan(Some(filename), Some(search_text), true, PathTarget::File(Some(contents)))
}

/// A call on a file with `N` matching lines, against a callback that always
/// answers `true`: the callback is handed exactly `N` records and the call
/// ends in `Success`. The path and the pattern are good, and the engine's
/// search runs to the end of the file.
pub proof fn lemma_every_match_is_delivered<F: Fn(SearchResult) -> bool>(
    callback: F,
    filename: Seq<u8>,
    search_text: Seq<u8>,
    contents: Vec<u8>,
    answers: Seq<bool>,
)
    requires
        valid_utf8(filename),
        valid_utf8(search_text),
        pattern_compiles(decode_utf8(search_text)),
        line_search(decode_utf8(search_text), contents@).1,
        always_answers(callback, true),
        consistent(callback, file_call(filename, search_text, contents), answers),
    ensures
        run(file_call(filename, search_text, contents), answers) == (Outcome {
            delivered: line_search(decode_utf8(search_text), contents@).0.len(),
            status: SearchStatusCode::Success,
        }),
{
    lemma_accepting_callback(callback, file_call(filename, search_text, contents), answers);
}

/// Against a callback that always answers `false`, a search with at least
/// one record to deliver hands the callback exactly one and ends with
/// `ErrorFromCallback`.
pub proof fn lemma_refusing_callback<F: Fn(SearchResult) -> bool>(
    callback: F,
    plan: Plan,
    answers: Seq<bool>,
)
    requires
        always_answers(callback, false),
        consistent(callback, plan, answers),
        plan.records.len() >= 1,
    ensures
        run(plan, answers) == (Outcome {
            delivered: 1,
            status: SearchStatusCode::ErrorFromCallback,
        }),
{
    lemma_run_bounds(plan, answers);
    let record = plan.records[0];
    assert(!answers[0]);
}

/// A call on a file with at least one matching line, against a callback
/// that always answers `false`: the callback is handed exactly one record
/// and the call ends with `ErrorFromCallback`. The path and the pattern are
/// good.
pub proof fn lemma_first_refusal_ends_the_call<F: Fn(SearchResult) -> bool>(
    callback: F,
    filename: Seq<u8>,
    search_text: Seq<u8>,
    contents: Vec<u8>,
    answers: Seq<bool>,
)
    requires
        valid_utf8(filename),
        valid_utf8(search_text),
        pattern_compiles(decode_utf8(search_text)),
        line_search(decode_utf8(search_text), contents@).0.len() >= 1,
        always_answers(callback, false),
        consistent(callback, file_call(filename, search_text, contents), answers),
    ensures
        run(file_call(filename, search_text, contents), answers) == (Outcome {
            delivered: 1,
            status: SearchStatusCode::ErrorFromCallback,
        }),
{
    lemma_refusing_callback(callback, file_call(filename, search_text, contents), answers);
}

/// An entry that is hidden, or that lies anywhere in the tree below a
/// hidden directory, adds nothing to a walk: it is not searched, and a
/// failure of the walk at that point is not reported.
pub proof fn lemma_hidden_entries_add_nothing(
    entries: Seq<WalkEntry>,
    pattern: Seq<char>,
    j: int,
    i: int,
)
    requires
        0 <= i < entries.len(),
        entries[i].hidden() || (below(entries, j, i) && entries[j].hidden_directory()),
    ensures
        entry_plan(entries, i, pattern) == stop(SearchStatusCode::Success),
{
    if !entries[i].hidden() {
        assert(pruned(entries, i));
    }
}

/// The records of the plan for the first `n` entries of a walk come from
/// regular files among them that are visited.
proof fn lemma_walk_records(entries: Seq<WalkEntry>, pattern: Seq<char>, n: int, r: int)
    requires
        0 <= n <= entries.len(),
        0 <= r < walk_plan(entries, pattern, n).records.len(),
    ensures
        exists|i: int|
            0 <= i < n && #[trigger] visited(entries, i) && entries[i].kind is File
                && walk_plan(entries, pattern, n).records[r].file_name == Some(
                reported_name(entries[i].path),
            ),
    decreases n,
{
    let before = walk_plan(entries, pattern, n - 1);
    if r < before.records.len() {
        lemma_walk_records(entries, pattern, n - 1, r);
        let i = choose|i: int|
            0 <= i < n - 1 && #[trigger] visited(entries, i) && entries[i].kind is File
                && before.records[r].file_name == Some(reported_name(entries[i].path));
        assert(visited(entries, i));
    } else {
        assert(visited(entries, n - 1));
    }
}

/// Every record that a walk delivers is that of a regular file which is
/// neither hidden nor in the tree below a hidden directory, and carries the
/// name under which that file is reported.
pub proof fn lemma_only_visible_files_are_searched(
    entries: Seq<WalkEntry>,
    pattern: Seq<char>,
    r: int,
)
    requires
        0 <= r < dir_plan(entries, pattern).records.len(),
    ensures
        exists|i: int|
            #[trigger] visited(entries, i) && entries[i].kind is File && !entries[i].hidden()
                && !pruned(entries, i) && dir_plan(entries, pattern).records[r].file_name == Some(
                reported_name(entries[i].path),
            ),
{
    lemma_walk_records(entries, pattern, entries.len() as int, r);
}

/// A search repeated with the same arguments, over the same state of the
/// disk and against a callback that always answers `true`, hands the
/// callback the same records in the same order and ends with the same
/// status.
pub proof fn lemma_repeated_search_agrees<F: Fn(SearchResult) -> bool>(
    callback: F,
    filename: Option<Seq<u8>>,
    search_text: Option<Seq<u8>>,
    found: PathTarget,
    first: Seq<bool>,
    second: Seq<bool>,
)
    requires
        always_answers(callback, true),
        consistent(callback, search_plan(filename, search_text, true, found), first),
        consistent(callback, search_plan(filename, search_text, true, found), second),
    ensures
        run(search_plan(filename, search_text, true, found), first) == run(
            search_plan(filename, search_text, true, found),
            second,
        ),
        search_plan(filename, search_text, true, found).records.take(first.len() as int)
            == search_plan(filename, search_text, true, found).records.take(second.len() as int),
{
    let plan = search_plan(filename, search_text, true, found);
    lemma_accepting_callback(callback, plan, first);
    lemma_accepting_callback(callback, plan, second);
}

/// A search with nothing to deliver returns what its plan ends with,
/// whatever the callback is.
pub proof fn lemma_nothing_to_deliver<F: Fn(SearchResult) -> bool>(
    callback: F,
    plan: Plan,
    result: Result<(), SearchStatusCode>,
)
    requires
        plan.records.len() == 0,
        delivers(callback, plan, result),
    ensures
        result == result_of(plan.end),
{
}

/// What a search against a callback that always answers `true` returns is
/// fixed by its plan alone.
pub proof fn lemma_accepted_search_result<F: Fn(SearchResult) -> bool>(
    callback: F,
    plan: Plan,
    result: Result<(), SearchStatusCode>,
)
    requires
        always_answers(callback, true),
        delivers(callback, plan, result),
    ensures
        result == result_of(plan.end),
{
    let answers = choose|answers: Seq<bool>| #[trigger]
        consistent(callback, plan, answers) && result == result_of(run(plan, answers).status);
    lemma_accepting_callback(callback, plan, answers);
}

/// What a search against a callback that always answers `false` returns,
/// where there is anything to deliver, is `ErrorFromCallback`.
pub proof fn lemma_refused_search_result<F: Fn(SearchResult) -> bool>(
    callback: F,
    plan: Plan,
    result: Result<(), SearchStatusCode>,
)
    requires
        always_answers(callback, false),
        delivers(callback, plan, result),
        plan.records.len() >= 1,
    ensures
        result == Err::<(), SearchStatusCode>(SearchStatusCode::ErrorFromCallback),
{
    let answers = choose|answers: Seq<bool>| #[trigger]
        consistent(callback, plan, answers) && result == result_of(run(plan, answers).status);
    lemma_refusing_callback(callback, plan, answers);
}

} // verus!
