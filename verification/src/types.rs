//! The record handed to the callback, the sink that builds and delivers it,
//! and the error that a refusing callback causes.

use vstd::prelude::*;

verus! {

/// One match as the callback receives it.
///
/// The bytes are a copy of the matched line and carry no terminating NUL:
/// `num_bytes` says how many there are.
pub struct SearchResult {
    /// The file the line was found in; absent when a single file was searched.
    pub file_name: Option<String>,
    /// The 1-based line number, or -1 when it is not known.
    pub line_number: i32,
    /// The bytes of the matching line.
    pub bytes: Vec<u8>,
    /// The number of bytes, as a 32-bit signed integer.
    pub num_bytes: i32,
}

/// The mathematical content of a [`SearchResult`].
pub struct MatchRecord {
    pub file_name: Option<Seq<char>>,
    pub line_number: int,
    pub bytes: Seq<u8>,
    pub num_bytes: int,
}

impl View for SearchResult {
    type V = MatchRecord;

    open spec fn view(&self) -> MatchRecord {
        MatchRecord {
            file_name: match self.file_name {
                Some(name) => Some(name@),
                None => None,
            },
            line_number: self.line_number as int,
            bytes: self.bytes@,
            num_bytes: self.num_bytes as int,
        }
    }
}

/// The 32-bit signed integer that agrees with `n` modulo 2^32: `n` itself
/// when it fits.
pub open spec fn wrap_i32(n: int) -> int {
    let low = n % 0x1_0000_0000;
    if low < 0x8000_0000 {
        low
    } else {
        low - 0x1_0000_0000
    }
}

/// A number that fits in 32 bits is not changed by the wrapping, and every
/// number is wrapped into the range of 32 bits: a line number or a length
/// below 2^31 reaches the callback as it is.
pub proof fn lemma_wrap_i32(n: int)
    ensures
        -0x8000_0000 <= wrap_i32(n) < 0x8000_0000,
        -0x8000_0000 <= n < 0x8000_0000 ==> wrap_i32(n) == n,
{
}

/// The line number of a record: the reported number wrapped to 32 bits, or
/// -1 when none was reported.
pub open spec fn record_line_number(line_number: Option<u64>) -> int {
    match line_number {
        Some(n) => wrap_i32(n as int),
        None => -1,
    }
}

/// The record for one matching line of the file called `file_name`.
pub open spec fn record_of(
    file_name: Option<Seq<char>>,
    line_number: Option<u64>,
    bytes: Seq<u8>,
) -> MatchRecord {
    MatchRecord {
        file_name,
        line_number: record_line_number(line_number),
        bytes,
        num_bytes: wrap_i32(bytes.len() as int),
    }
}

/// Wraps `n` to 32 bits, as a conversion between C integer types does.
fn wrap_to_i32(n: u64) -> (wrapped: i32)
    ensures
        wrapped == wrap_i32(n as int),
{
    let low: u64 = n % 0x1_0000_0000;
    if low < 0x8000_0000 {
        low as i32
    } else {
        (low as i64 - 0x1_0000_0000) as i32
    }
}

/// The text carried by the error that a refusing callback causes.
pub open spec fn refusal_message() -> Seq<char> {
    "Callback completed but indicated an error"@
}

/// The failure that ends a file's search.
pub struct CallbackError {
    error_message: String,
}

impl View for CallbackError {
    type V = Seq<char>;

    /// The message the error was made with.
    closed spec fn view(&self) -> Seq<char> {
        self.error_message@
    }
}

impl CallbackError {
    /// An error that carries `message`.
    pub fn error_message(message: &str) -> (error: CallbackError)
        ensures
            error@ == message@,
    {
        CallbackError { error_message: message.to_owned() }
    }

    /// The message this error carries.
    pub fn message(&self) -> (message: &str)
        ensures
            message@ == self@,
    {
        self.error_message.as_str()
    }
}

/// Whether `callback` can answer `answer` when it is handed a result whose
/// content is `record`.
pub open spec fn may_answer<F: Fn(SearchResult) -> bool>(
    callback: F,
    record: MatchRecord,
    answer: bool,
) -> bool {
    exists|result: SearchResult| result@ == record && call_ensures(callback, (result,), answer)
}

/// Whether `callback` accepts every result it may be handed.
pub open spec fn callable<F: Fn(SearchResult) -> bool>(callback: F) -> bool {
    forall|result: SearchResult| call_requires(callback, (result,))
}

/// What the search is told after the callback has answered: to keep going
/// when the callback succeeded, to stop with an error when it did not.
pub fn reply(succeeded: bool) -> (reply: Result<bool, CallbackError>)
    ensures
        succeeded ==> reply == Ok::<bool, CallbackError>(true),
        !succeeded ==> reply is Err && reply->Err_0@ == refusal_message(),
{
    if succeeded {
        Ok(true)
    } else {
        Err(CallbackError::error_message("Callback completed but indicated an error"))
    }
}

/// Delivers the matches of one file to a callback: the callback, and the
/// name under which the file is reported.
pub struct SearchResultCallbackSink<F: Fn(SearchResult) -> bool>(pub F, pub Option<String>);

impl<F: Fn(SearchResult) -> bool> SearchResultCallbackSink<F> {
    /// The name under which the file is reported, as a sequence of characters.
    pub open spec fn file_name(&self) -> Option<Seq<char>> {
        match self.1 {
            Some(name) => Some(name@),
            None => None,
        }
    }

    /// Builds the record for one matching line.
    pub fn record(&self, line_number: Option<u64>, bytes: &[u8]) -> (result: SearchResult)
        ensures
            result@ == record_of(self.file_name(), line_number, bytes@),
    {
        let file_name = match &self.1 {
            Some(name) => Some(name.clone()),
            None => None,
        };
        let line_number = match line_number {
            Some(n) => wrap_to_i32(n),
            None => -1,
        };
        SearchResult {
            file_name,
            line_number,
            bytes: vstd::slice::slice_to_vec(bytes),
            num_bytes: wrap_to_i32(bytes.len() as u64),
        }
    }

    /// Handles one matching line: builds its record, hands it to the
    /// callback, and turns the callback's answer into the reply for the
    /// search.
    pub fn matched(&mut self, line_number: Option<u64>, bytes: &[u8]) -> (reply: Result<
        bool,
        CallbackError,
    >)
        requires
            callable(old(self).0),
        ensures
            *final(self) == *old(self),
            may_answer(
                old(self).0,
                record_of(old(self).file_name(), line_number, bytes@),
                reply is Ok,
            ),
            reply is Ok ==> reply == Ok::<bool, CallbackError>(true),
            reply is Err ==> reply->Err_0@ == refusal_message(),
    {
        let result = self.record(line_number, bytes);
        let ghost handed = result;
        let succeeded: bool = (self.0)(result);
        assert(handed@ == record_of(self.file_name(), line_number, bytes@) && call_ensures(
            self.0,
            (handed,),
            succeeded,
        ));
        reply(succeeded)
    }
}

} // verus!
