//! What a search is to do, stated without running it: the records it has to
//! deliver, in order, and the status it ends with once every record has
//! been accepted.
//!
//! A search is the run of its plan against the answers of the callback. The
//! executable functions of the crate are specified by the plans defined
//! here.

use crate::engine::{line_search, pattern_compiles};
use crate::status::{result_of, SearchStatusCode};
use crate::tree::{visited, EntryKind, PathTarget, WalkEntry};
use crate::types::{may_answer, record_of, MatchRecord, SearchResult};
use vstd::prelude::*;
use vstd::utf8::{decode_utf8, valid_utf8};

verus! {

/// The records a search delivers, in order, and the status it ends with if
/// the callback accepts them all.
pub struct Plan {
    pub records: Seq<MatchRecord>,
    pub end: SearchStatusCode,
}

/// How a run ended: how many records the callback was handed, and the
/// status reported.
pub struct Outcome {
    pub delivered: nat,
    pub status: SearchStatusCode,
}

/// The plan that delivers nothing and ends with `status`.
pub open spec fn stop(status: SearchStatusCode) -> Plan {
    Plan { records: Seq::empty(), end: status }
}

impl Plan {
    /// This plan followed by `next`. A plan that ends in a failure is never
    /// followed by anything.
    pub open spec fn followed_by(self, next: Plan) -> Plan {
        if self.end == SearchStatusCode::Success {
            Plan { records: self.records + next.records, end: next.end }
        } else {
            self
        }
    }

    /// What is left of this plan after its first `k` records.
    pub open spec fn after(self, k: int) -> Plan {
        Plan { records: self.records.skip(k), end: self.end }
    }
}

/// The run of `plan` against a callback that answers `answers[i]` to the
/// record it is handed in the `i`-th place. The first answer that is not
/// `true` ends the run with `ErrorFromCallback`; a run that is handed no
/// such answer delivers every record and ends as the plan does.
pub open spec fn run(plan: Plan, answers: Seq<bool>) -> Outcome
    decreases plan.records.len(),
{
    if plan.records.len() == 0 {
        Outcome { delivered: 0, status: plan.end }
    } else if answers.len() > 0 && answers[0] {
        let rest = run(plan.after(1), answers.skip(1));
        Outcome { delivered: rest.delivered + 1, status: rest.status }
    } else {
        Outcome { delivered: 1, status: SearchStatusCode::ErrorFromCallback }
    }
}

/// Whether `answers` are answers that `callback` can have given in a run of
/// `plan`: one for each record delivered, each of them an answer that the
/// callback can give to that record.
pub open spec fn consistent<F: Fn(SearchResult) -> bool>(
    callback: F,
    plan: Plan,
    answers: Seq<bool>,
) -> bool {
    &&& answers.len() == run(plan, answers).delivered
    &&& forall|i: int|
        0 <= i < answers.len() ==> may_answer(callback, #[trigger] plan.records[i], answers[i])
}

/// Whether `result` reports a run of `plan` against `callback`.
pub open spec fn delivers<F: Fn(SearchResult) -> bool>(
    callback: F,
    plan: Plan,
    result: Result<(), SearchStatusCode>,
) -> bool {
    exists|answers: Seq<bool>|
        #[trigger] consistent(callback, plan, answers) && result == result_of(
            run(plan, answers).status,
        )
}

/// Whether `callback` gives no answer but `answer`, whatever it is handed.
pub open spec fn always_answers<F: Fn(SearchResult) -> bool>(callback: F, answer: bool) -> bool {
    forall|result: SearchResult, given: bool|
        call_ensures(callback, (result,), given) ==> given == answer
}

/// A run whose first `k` answers are all `true` delivers the first `k`
/// records and goes on as the run of the rest of the plan against the rest
/// of the answers.
pub proof fn lemma_run_prefix(plan: Plan, answers: Seq<bool>, k: int)
    requires
        0 <= k <= plan.records.len(),
        k <= answers.len(),
        forall|i: int| 0 <= i < k ==> answers[i],
    ensures
        run(plan, answers).delivered == k + run(plan.after(k), answers.skip(k)).delivered,
        run(plan, answers).status == run(plan.after(k), answers.skip(k)).status,
    decreases k,
{
    if k == 0 {
        assert(plan.after(0) == plan) by {
            assert(plan.records.skip(0) =~= plan.records);
        }
        assert(answers.skip(0) =~= answers);
    } else {
        let rest = plan.after(1);
        let later = answers.skip(1);
        lemma_run_prefix(rest, later, k - 1);
        assert(rest.after(k - 1) == plan.after(k)) by {
            assert(rest.records.skip(k - 1) =~= plan.records.skip(k));
        }
        assert(later.skip(k - 1) =~= answers.skip(k));
    }
}

/// A run hands the callback no more records than the plan holds, and at
/// least one where the plan holds any; it ends as the plan does or with
/// `ErrorFromCallback`.
pub proof fn lemma_run_bounds(plan: Plan, answers: Seq<bool>)
    ensures
        run(plan, answers).delivered <= plan.records.len(),
        plan.records.len() > 0 ==> run(plan, answers).delivered >= 1,
        run(plan, answers).status == plan.end || run(plan, answers).status
            == SearchStatusCode::ErrorFromCallback,
    decreases plan.records.len(),
{
    if plan.records.len() > 0 && answers.len() > 0 && answers[0] {
        lemma_run_bounds(plan.after(1), answers.skip(1));
    }
}

/// A run that ends in `Success` has delivered every record of a plan that
/// ends in `Success`, and every answer it was given was `true`.
pub proof fn lemma_run_success(plan: Plan, answers: Seq<bool>)
    requires
        run(plan, answers).status == SearchStatusCode::Success,
    ensures
        plan.end == SearchStatusCode::Success,
        run(plan, answers).delivered == plan.records.len(),
        plan.records.len() <= answers.len(),
        forall|i: int| 0 <= i < plan.records.len() ==> answers[i],
    decreases plan.records.len(),
{
    if plan.records.len() > 0 {
        let rest = plan.after(1);
        let later = answers.skip(1);
        lemma_run_success(rest, later);
        assert forall|i: int| 0 <= i < plan.records.len() implies answers[i] by {
            if i > 0 {
                assert(later[i - 1]);
            }
        }
    }
}

/// A run that has failed is not changed by what would have followed.
pub proof fn lemma_run_stops(plan: Plan, next: Plan, answers: Seq<bool>)
    requires
        run(plan, answers).status != SearchStatusCode::Success,
    ensures
        run(plan.followed_by(next), answers) == run(plan, answers),
    decreases plan.records.len(),
{
    if plan.end == SearchStatusCode::Success && plan.records.len() > 0 {
        let whole = plan.followed_by(next);
        if answers.len() > 0 && answers[0] {
            lemma_run_stops(plan.after(1), next, answers.skip(1));
            assert(whole.after(1) == plan.after(1).followed_by(next)) by {
                assert(whole.records.skip(1) =~= plan.records.skip(1) + next.records);
            }
        }
    }
}

/// A search that ends before anything is delivered reports its status
/// whatever the callback is.
pub proof fn lemma_stop_delivers<F: Fn(SearchResult) -> bool>(callback: F, status: SearchStatusCode)
    ensures
        delivers(callback, stop(status), result_of(status)),
{
    assert(consistent(callback, stop(status), Seq::<bool>::empty()));
}

/// The plan for the lines that one search of one file found: a record for
/// each line, and a failure at the end where the search did not complete.
pub open spec fn lines_plan(file_name: Option<Seq<char>>, found: (Seq<(u64, Seq<u8>)>, bool)) -> Plan {
    Plan {
        records: found.0.map_values(
            |line: (u64, Seq<u8>)| record_of(file_name, Some(line.0), line.1),
        ),
        end: if found.1 {
            SearchStatusCode::Success
        } else {
            SearchStatusCode::ErrorFromCallback
        },
    }
}

/// The bytes of a file that could be read.
pub open spec fn bytes_of(contents: Option<Vec<u8>>) -> Option<Seq<u8>> {
    match contents {
        Some(bytes) => Some(bytes@),
        None => None,
    }
}

/// The plan for one file reported under `file_name`: the lines that the
/// pattern matches in it, or a failure at once where it could not be read.
pub open spec fn file_plan(
    file_name: Option<Seq<char>>,
    contents: Option<Seq<u8>>,
    pattern: Seq<char>,
) -> Plan {
    match contents {
        Some(bytes) => lines_plan(file_name, line_search(pattern, bytes)),
        None => stop(SearchStatusCode::ErrorFromCallback),
    }
}

/// The name that stands for a file whose path is not valid UTF-8.
pub open spec fn unknown_file() -> Seq<char> {
    "<unknown file>"@
}

/// The name under which a file found in a walk is reported: its path, or
/// the name for an unknown file.
pub open spec fn reported_name(path: Option<String>) -> Seq<char> {
    match path {
        Some(path) => path@,
        None => unknown_file(),
    }
}

/// What entry `i` of a walk adds to the plan: nothing unless it is visited;
/// a failure where the walk failed; the file's own plan for a regular file;
/// nothing for anything else.
pub open spec fn entry_plan(entries: Seq<WalkEntry>, i: int, pattern: Seq<char>) -> Plan {
    if !visited(entries, i) {
        stop(SearchStatusCode::Success)
    } else {
        match entries[i].kind {
            EntryKind::Failed => stop(SearchStatusCode::ErrorCouldNotOpenFile),
            EntryKind::File(contents) => file_plan(
                Some(reported_name(entries[i].path)),
                bytes_of(contents),
                pattern,
            ),
            _ => stop(SearchStatusCode::Success),
        }
    }
}

/// The plan for the first `n` entries of a walk, taken in order.
pub open spec fn walk_plan(entries: Seq<WalkEntry>, pattern: Seq<char>, n: int) -> Plan
    decreases n,
{
    if n <= 0 {
        stop(SearchStatusCode::Success)
    } else {
        walk_plan(entries, pattern, n - 1).followed_by(entry_plan(entries, n - 1, pattern))
    }
}

/// The plan for a whole directory walk.
pub open spec fn dir_plan(entries: Seq<WalkEntry>, pattern: Seq<char>) -> Plan {
    walk_plan(entries, pattern, entries.len() as int)
}

/// The plan for more of a walk begins with the records of the plan for
/// less of it, and is that very plan where that one ends in a failure.
pub proof fn lemma_walk_plan_grows(entries: Seq<WalkEntry>, pattern: Seq<char>, m: int, n: int)
    requires
        0 <= m <= n,
    ensures
        walk_plan(entries, pattern, m).records.len() <= walk_plan(entries, pattern, n).records.len(),
        forall|r: int|
            0 <= r < walk_plan(entries, pattern, m).records.len() ==> walk_plan(
                entries,
                pattern,
                n,
            ).records[r] == walk_plan(entries, pattern, m).records[r],
        walk_plan(entries, pattern, m).end != SearchStatusCode::Success ==> walk_plan(
            entries,
            pattern,
            n,
        ) == walk_plan(entries, pattern, m),
    decreases n - m,
{
    if m < n {
        lemma_walk_plan_grows(entries, pattern, m, n - 1);
    }
}

/// Once the run of a walk has failed, the rest of the walk changes nothing:
/// the same answers stand for a run of the whole walk, with the same
/// outcome.
pub proof fn lemma_walk_fails<F: Fn(SearchResult) -> bool>(
    callback: F,
    entries: Seq<WalkEntry>,
    pattern: Seq<char>,
    m: int,
    answers: Seq<bool>,
)
    requires
        0 <= m <= entries.len(),
        consistent(callback, walk_plan(entries, pattern, m), answers),
        run(walk_plan(entries, pattern, m), answers).status != SearchStatusCode::Success,
    ensures
        consistent(callback, dir_plan(entries, pattern), answers),
        run(dir_plan(entries, pattern), answers) == run(walk_plan(entries, pattern, m), answers),
    decreases entries.len() - m,
{
    let part = walk_plan(entries, pattern, m);
    if m < entries.len() {
        let more = walk_plan(entries, pattern, m + 1);
        lemma_run_stops(part, entry_plan(entries, m, pattern), answers);
        lemma_run_bounds(part, answers);
        lemma_walk_plan_grows(entries, pattern, m, m + 1);
        assert(consistent(callback, more, answers)) by {
            assert forall|i: int| 0 <= i < answers.len() implies may_answer(
                callback,
                #[trigger] more.records[i],
                answers[i],
            ) by {
                assert(more.records[i] == part.records[i]);
            }
        }
        lemma_walk_fails(callback, entries, pattern, m + 1, answers);
    }
}

/// A plan whose records were all accepted, followed by a run of another
/// plan: the answers of both, one after the other, stand for a run of the
/// two plans in a row, which ends as the second run does.
pub proof fn lemma_run_in_a_row<F: Fn(SearchResult) -> bool>(
    callback: F,
    done: Plan,
    next: Plan,
    first: Seq<bool>,
    second: Seq<bool>,
)
    requires
        done.end == SearchStatusCode::Success,
        first.len() == done.records.len(),
        forall|i: int| 0 <= i < first.len() ==> first[i],
        forall|i: int|
            0 <= i < first.len() ==> may_answer(callback, #[trigger] done.records[i], true),
        consistent(callback, next, second),
    ensures
        consistent(callback, done.followed_by(next), first + second),
        run(done.followed_by(next), first + second).status == run(next, second).status,
        run(done.followed_by(next), first + second).delivered == first.len() + run(
            next,
            second,
        ).delivered,
{
    let whole = done.followed_by(next);
    let all = first + second;
    let k = first.len() as int;
    lemma_run_prefix(whole, all, k);
    lemma_run_bounds(next, second);
    assert(whole.after(k) == next) by {
        assert(whole.records.skip(k) =~= next.records);
    }
    assert(all.skip(k) =~= second);
    assert forall|i: int| 0 <= i < all.len() implies may_answer(
        callback,
        #[trigger] whole.records[i],
        all[i],
    ) by {
        if i < k {
            assert(whole.records[i] == done.records[i]);
        } else {
            assert(whole.records[i] == next.records[i - k]);
            assert(all[i] == second[i - k]);
        }
    }
}

/// The plan for what was found at the path: a file is searched on its own
/// and reported without a name; a directory is walked; anything else cannot
/// be opened.
pub open spec fn target_plan(found: PathTarget, pattern: Seq<char>) -> Plan {
    match found {
        PathTarget::File(contents) => file_plan(None, bytes_of(contents), pattern),
        PathTarget::Directory(entries) => dir_plan(entries@, pattern),
        PathTarget::Missing => stop(SearchStatusCode::ErrorCouldNotOpenFile),
        PathTarget::Other => stop(SearchStatusCode::ErrorCouldNotOpenFile),
    }
}

/// The plan for a whole call. Absent arguments are reported first, the path
/// before the pattern before the callback; then a path that is not valid
/// UTF-8 or names nothing; then a pattern that is not valid UTF-8 or does
/// not compile; and only then is anything searched.
pub open spec fn search_plan(
    filename: Option<Seq<u8>>,
    search_text: Option<Seq<u8>>,
    has_callback: bool,
    found: PathTarget,
) -> Plan {
    if filename is None {
        stop(SearchStatusCode::MissingFilename)
    } else if search_text is None {
        stop(SearchStatusCode::MissingSearchText)
    } else if !has_callback {
        stop(SearchStatusCode::MissingCallback)
    } else if !valid_utf8(filename->0) || found is Missing {
        stop(SearchStatusCode::ErrorCouldNotOpenFile)
    } else if !valid_utf8(search_text->0) || !pattern_compiles(decode_utf8(search_text->0)) {
        stop(SearchStatusCode::ErrorBadPattern)
    } else {
        target_plan(found, decode_utf8(search_text->0))
    }
}

/// No plan for a walk ends by blaming the engine.
pub proof fn lemma_walk_plan_end(entries: Seq<WalkEntry>, pattern: Seq<char>, n: int)
    ensures
        walk_plan(entries, pattern, n).end != SearchStatusCode::ErrorFromRipgrep,
    decreases n,
{
    if n > 0 {
        lemma_walk_plan_end(entries, pattern, n - 1);
    }
}

/// A failed search reports a failure, and never `ErrorFromRipgrep`: every
/// failure of a search is laid either on the arguments, on what was found
/// on disk, or on the callback.
pub proof fn lemma_failure_codes<F: Fn(SearchResult) -> bool>(
    callback: F,
    filename: Option<Seq<u8>>,
    search_text: Option<Seq<u8>>,
    has_callback: bool,
    found: PathTarget,
    result: Result<(), SearchStatusCode>,
)
    requires
        delivers(callback, search_plan(filename, search_text, has_callback, found), result),
    ensures
        result is Err ==> result->Err_0 != SearchStatusCode::Success && result->Err_0
            != SearchStatusCode::ErrorFromRipgrep,
{
    let plan = search_plan(filename, search_text, has_callback, found);
    let answers = choose|answers: Seq<bool>| #[trigger]
        consistent(callback, plan, answers) && result == result_of(run(plan, answers).status);
    lemma_run_bounds(plan, answers);
    if found is Directory {
        lemma_walk_plan_end(found->Directory_0@, decode_utf8(search_text->0), found->Directory_0@.len() as int);
    }
}

} // verus!
