//! The boundary to the regular-expression engine: compiling a pattern and
//! finding the lines of a byte buffer that it matches.
//!
//! Nothing here is proved about the engine. Each contract in this file names
//! what the engine returns, so that the rest of the crate can be exact about
//! what it does with it.

use vstd::prelude::*;

verus! {

/// A compiled matcher of the engine; opaque to the verifier.
#[verifier::external_type_specification]
#[verifier::external_body]
pub struct ExRegexMatcher(grep::regex::RegexMatcher);

/// The engine's reason for refusing a pattern; opaque to the verifier.
#[verifier::external_type_specification]
#[verifier::external_body]
pub struct ExRegexError(grep::regex::Error);

/// Whether the engine accepts `pattern`: the regular-expression dialect of
/// `grep::regex::RegexMatcher::new` in its default configuration.
pub uninterp spec fn pattern_compiles(pattern: Seq<char>) -> bool;

/// What a default `grep::searcher::Searcher` reports for `haystack` under the
/// matcher compiled from `pattern`: each matching line with its 1-based line
/// number and its bytes, line terminator included, in the order found; and
/// whether the search ran to the end of the haystack.
pub uninterp spec fn line_search(pattern: Seq<char>, haystack: Seq<u8>) -> (
    Seq<(u64, Seq<u8>)>,
    bool,
);

/// A pattern together with the matcher that the engine compiled from it.
///
/// Values are made by [`compile`] alone, which keeps the two in step.
pub struct CompiledPattern {
    text: String,
    matcher: grep::regex::RegexMatcher,
}

impl View for CompiledPattern {
    type V = Seq<char>;

    /// The pattern text that was compiled.
    closed spec fn view(&self) -> Seq<char> {
        self.text@
    }
}

impl CompiledPattern {
    /// The pattern text that was compiled.
    pub fn pattern(&self) -> (text: &str)
        ensures
            text@ == self@,
    {
        self.text.as_str()
    }
}

/// One matching line as the engine reported it.
pub struct LineMatch {
    /// The 1-based number of the line in its haystack.
    pub line_number: u64,
    /// The bytes of the line, line terminator included.
    pub bytes: Vec<u8>,
}

impl View for LineMatch {
    type V = (u64, Seq<u8>);

    open spec fn view(&self) -> (u64, Seq<u8>) {
        (self.line_number, self.bytes@)
    }
}

/// Everything one search of one haystack found.
pub struct FoundLines {
    /// The matching lines in the order found.
    pub lines: Vec<LineMatch>,
    /// Whether the search ran to the end of the haystack.
    pub completed: bool,
}

impl View for FoundLines {
    type V = (Seq<(u64, Seq<u8>)>, bool);

    open spec fn view(&self) -> (Seq<(u64, Seq<u8>)>, bool) {
        (self.lines@.map_values(|line: LineMatch| line@), self.completed)
    }
}

/// Appends one reported line to `lines` and asks the engine to keep going.
fn keep_line(lines: &mut Vec<LineMatch>, line_number: u64, bytes: &[u8]) -> (keep_going: bool)
    ensures
        keep_going,
        final(lines)@.len() == old(lines)@.len() + 1,
        final(lines)@.last()@ == (line_number, bytes@),
        forall|i: int| 0 <= i < old(lines)@.len() ==> final(lines)@[i] == old(lines)@[i],
{
    let bytes = vstd::slice::slice_to_vec(bytes);
    lines.push(LineMatch { line_number, bytes });
    true
}

/// Compiles `text` with `grep::regex::RegexMatcher::new`.
///
/// Trusted: the call succeeds exactly on the patterns that
/// [`pattern_compiles`] names, and the value returned holds the matcher for
/// `text` itself.
#[verifier::external_body]
pub(crate) fn compile(text: &str) -> (compiled: Result<CompiledPattern, grep::regex::Error>)
    ensures
        compiled is Ok <==> pattern_compiles(text@),
        compiled matches Ok(pattern) ==> pattern@ == text@,
{
    let matcher = grep::regex::RegexMatcher::new(text)?;
    Ok(CompiledPattern { text: text.to_string(), matcher })
}

/// Searches `haystack` line by line with `grep::searcher::Searcher::new()`
/// and `search_slice`, collecting what the `Bytes` sink is handed.
///
/// Trusted: the lines collected and the completion flag are those that
/// [`line_search`] names for the pattern's text and the haystack.
#[verifier::external_body]
pub(crate) fn find_lines(pattern: &CompiledPattern, haystack: &[u8]) -> (found: FoundLines)
    ensures
        found@ == line_search(pattern@, haystack@),
{
    let mut lines: Vec<LineMatch> = Vec::new();
    let sink = grep::searcher::sinks::Bytes(|number, bytes| Ok(keep_line(&mut lines, number, bytes)));
    let search = grep::searcher::Searcher::new().search_slice(&pattern.matcher, haystack, sink);
    FoundLines { lines, completed: search.is_ok() }
}

} // verus!
