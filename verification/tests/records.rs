use search_dispatch::dispatch::{deliver, search_file};
use search_dispatch::engine::{FoundLines, LineMatch};
use search_dispatch::parse::parse_search_text;
use search_dispatch::status::SearchStatusCode;
use search_dispatch::types::{reply, CallbackError, SearchResult, SearchResultCallbackSink};
use std::cell::RefCell;

fn accept(_: SearchResult) -> bool {
    true
}

fn refuse(_: SearchResult) -> bool {
    false
}

#[test]
fn record_carries_line_number_bytes_and_length() {
    let sink = SearchResultCallbackSink(accept, Some("notes.txt".to_string()));
    let result = sink.record(Some(13), b"graduation day\n");
    assert_eq!(Some("notes.txt".to_string()), result.file_name);
    assert_eq!(13, result.line_number);
    assert_eq!(b"graduation day\n".to_vec(), result.bytes);
    assert_eq!(15, result.num_bytes);
}

#[test]
fn record_without_a_line_number_carries_minus_one() {
    let sink = SearchResultCallbackSink(accept, None);
    let result = sink.record(None, b"");
    assert_eq!(None, result.file_name);
    assert_eq!(-1, result.line_number);
    assert_eq!(0, result.num_bytes);
    assert!(result.bytes.is_empty());
}

#[test]
fn line_numbers_wrap_to_thirty_two_bits() {
    let sink = SearchResultCallbackSink(accept, None);
    assert_eq!(i32::MAX, sink.record(Some(0x7fff_ffff), b"x").line_number);
    assert_eq!(i32::MIN, sink.record(Some(0x8000_0000), b"x").line_number);
    assert_eq!(-1, sink.record(Some(0xffff_ffff), b"x").line_number);
    assert_eq!(0, sink.record(Some(0x1_0000_0000), b"x").line_number);
    assert_eq!(13, sink.record(Some(0x1_0000_000d), b"x").line_number);
    assert_eq!(-1, sink.record(Some(u64::MAX), b"x").line_number);
    assert_eq!(0, sink.record(Some(0), b"x").line_number);
}

#[test]
fn reply_keeps_going_on_success_and_fails_on_refusal() {
    assert_eq!(Some(true), reply(true).ok());
    let error = reply(false).err().expect("a refusal is an error");
    assert_eq!("Callback completed but indicated an error", error.message());
}

#[test]
fn callback_error_carries_its_message() {
    let error = CallbackError::error_message("line numbers not enabled");
    assert_eq!("line numbers not enabled", error.message());
    assert_eq!("", CallbackError::error_message("").message());
}

#[test]
fn matched_hands_the_record_to_the_callback() {
    let seen = RefCell::new(Vec::new());
    let callback = |result: SearchResult| {
        let keep = result.line_number != 2;
        seen.borrow_mut().push(result);
        keep
    };
    let mut sink = SearchResultCallbackSink(callback, Some("f".to_string()));
    assert_eq!(Some(true), sink.matched(Some(1), b"one\n").ok());
    let error = sink.matched(Some(2), b"two\n").err().expect("the callback refused");
    assert_eq!("Callback completed but indicated an error", error.message());
    assert_eq!(Some(true), sink.matched(None, b"three").ok());
    let seen = seen.into_inner();
    assert_eq!(3, seen.len());
    assert_eq!((1, b"one\n".to_vec(), 4), (seen[0].line_number, seen[0].bytes.clone(), seen[0].num_bytes));
    assert_eq!((2, 4), (seen[1].line_number, seen[1].num_bytes));
    assert_eq!((-1, 5), (seen[2].line_number, seen[2].num_bytes));
    assert_eq!(Some("f".to_string()), seen[2].file_name);
}

fn two_lines(completed: bool) -> FoundLines {
    FoundLines {
        lines: vec![
            LineMatch { line_number: 3, bytes: b"bee\n".to_vec() },
            LineMatch { line_number: 8, bytes: b"Bee".to_vec() },
        ],
        completed,
    }
}

#[test]
fn deliver_hands_over_every_line_found() {
    let seen = RefCell::new(Vec::new());
    let callback = |result: SearchResult| {
        seen.borrow_mut().push((result.line_number, result.num_bytes));
        true
    };
    let mut sink = SearchResultCallbackSink(callback, None);
    assert_eq!(Ok(()), deliver(&mut sink, &two_lines(true)));
    assert_eq!(vec![(3, 4), (8, 3)], seen.into_inner());
}

#[test]
fn deliver_stops_at_the_first_refusal() {
    let seen = RefCell::new(Vec::new());
    let callback = |result: SearchResult| {
        seen.borrow_mut().push(result.line_number);
        false
    };
    let mut sink = SearchResultCallbackSink(callback, None);
    assert_eq!(Err(SearchStatusCode::ErrorFromCallback), deliver(&mut sink, &two_lines(true)));
    assert_eq!(vec![3], seen.into_inner());
}

#[test]
fn search_that_did_not_complete_fails_once_its_lines_are_delivered() {
    let seen = RefCell::new(Vec::new());
    let callback = |result: SearchResult| {
        seen.borrow_mut().push(result.line_number);
        true
    };
    let mut sink = SearchResultCallbackSink(callback, None);
    assert_eq!(Err(SearchStatusCode::ErrorFromCallback), deliver(&mut sink, &two_lines(false)));
    assert_eq!(vec![3, 8], seen.into_inner());
}

#[test]
fn deliver_of_nothing_succeeds_whatever_the_callback() {
    let mut sink = SearchResultCallbackSink(refuse, None);
    let nothing = FoundLines { lines: Vec::new(), completed: true };
    assert_eq!(Ok(()), deliver(&mut sink, &nothing));
}

#[test]
fn search_file_reports_lines_with_their_terminators() {
    let matcher = parse_search_text(Some(b"b+e")).ok().unwrap();
    let seen = RefCell::new(Vec::new());
    let callback = |result: SearchResult| {
        seen.borrow_mut().push((result.file_name, result.line_number, result.bytes));
        true
    };
    let contents = Some(b"abbe\r\nnone\n\nbe".to_vec());
    let result = search_file(Some("x".to_string()), &contents, &matcher, callback);
    assert_eq!(Ok(()), result);
    assert_eq!(
        vec![
            (Some("x".to_string()), 1, b"abbe\r\n".to_vec()),
            (Some("x".to_string()), 4, b"be".to_vec()),
        ],
        seen.into_inner()
    );
}

#[test]
fn search_file_that_cannot_be_read_fails_without_calling_back() {
    let matcher = parse_search_text(Some(b"bee")).ok().unwrap();
    let result = search_file(None, &None, &matcher, |_: SearchResult| -> bool {
        unreachable!("nothing was found, so nothing is delivered")
    });
    assert_eq!(Err(SearchStatusCode::ErrorFromCallback), result);
}

#[test]
fn search_of_an_empty_file_succeeds() {
    let matcher = parse_search_text(Some(b"")).ok().unwrap();
    assert_eq!(Ok(()), search_file(None, &Some(Vec::new()), &matcher, refuse));
}
