//! The status codes that end a search.

use vstd::prelude::*;

verus! {

/// How a search ended. Every entry point reports exactly one of these, and
/// nothing else signals success or failure.
#[derive(Debug, PartialEq, Eq, Clone, Copy, Structural)]
pub enum SearchStatusCode {
    Success,
    /// The path argument was absent.
    MissingFilename,
    /// The pattern argument was absent.
    MissingSearchText,
    /// The callback argument was absent.
    MissingCallback,
    /// The pattern did not compile.
    ErrorBadPattern,
    /// The path is missing, unreadable, badly encoded, or neither a file nor
    /// a directory.
    ErrorCouldNotOpenFile,
    /// A failure of the search engine that the callback did not cause.
    ErrorFromRipgrep,
    /// The callback asked to stop, or the search could not be completed.
    ErrorFromCallback,
}

impl SearchStatusCode {
    /// The integer that stands for this status at a language boundary.
    pub open spec fn spec_code(self) -> int {
        match self {
            SearchStatusCode::Success => 0,
            SearchStatusCode::MissingFilename => 1,
            SearchStatusCode::MissingSearchText => 2,
            SearchStatusCode::MissingCallback => 3,
            SearchStatusCode::ErrorBadPattern => 11,
            SearchStatusCode::ErrorCouldNotOpenFile => 12,
            SearchStatusCode::ErrorFromRipgrep => 13,
            SearchStatusCode::ErrorFromCallback => 21,
        }
    }

    /// The integer that stands for this status at a language boundary.
    pub fn code(self) -> (code: i32)
        ensures
            code == self.spec_code(),
    {
        match self {
            SearchStatusCode::Success => 0,
            SearchStatusCode::MissingFilename => 1,
            SearchStatusCode::MissingSearchText => 2,
            SearchStatusCode::MissingCallback => 3,
            SearchStatusCode::ErrorBadPattern => 11,
            SearchStatusCode::ErrorCouldNotOpenFile => 12,
            SearchStatusCode::ErrorFromRipgrep => 13,
            SearchStatusCode::ErrorFromCallback => 21,
        }
    }
}

/// The status that stands for the outcome of a search: `Success` for `Ok`,
/// and the failure's own code otherwise.
pub open spec fn status_of(outcome: Result<(), SearchStatusCode>) -> SearchStatusCode {
    match outcome {
        Ok(_) => SearchStatusCode::Success,
        Err(code) => code,
    }
}

/// The outcome that a status stands for: `Ok` for `Success`, and the
/// status as a failure otherwise.
pub open spec fn result_of(status: SearchStatusCode) -> Result<(), SearchStatusCode> {
    if status == SearchStatusCode::Success {
        Ok(())
    } else {
        Err(status)
    }
}

/// Maps the outcome of a search to the one status that is reported for it.
pub fn report(outcome: Result<(), SearchStatusCode>) -> (status: SearchStatusCode)
    ensures
        status == status_of(outcome),
        status == SearchStatusCode::Success <==> (outcome is Ok || outcome == Err::<
            (),
            SearchStatusCode,
        >(SearchStatusCode::Success)),
{
    match outcome {
        Ok(_) => SearchStatusCode::Success,
        Err(code) => code,
    }
}

/// A status and the outcome it stands for determine each other, but for
/// the failure that carries `Success`, which no search returns.
pub proof fn lemma_status_and_outcome(status: SearchStatusCode, outcome: Result<(), SearchStatusCode>)
    ensures
        status_of(result_of(status)) == status,
        outcome != Err::<(), SearchStatusCode>(SearchStatusCode::Success) ==> result_of(
            status_of(outcome),
        ) == outcome,
{
    if outcome is Ok {
        assert(outcome->Ok_0 == ());
    }
}

/// Distinct statuses have distinct integers, so a caller can tell every
/// failure apart by its code alone.
pub proof fn lemma_codes_are_distinct(a: SearchStatusCode, b: SearchStatusCode)
    ensures
        a.spec_code() == b.spec_code() <==> a == b,
{
}

} // verus!
