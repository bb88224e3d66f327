use search_dispatch::parse::{parse_path, parse_search_text, to_string};
use search_dispatch::status::SearchStatusCode;
use search_dispatch::tree::PathTarget;

const BEE_MOVIE_FILE_NAME: &str = "src/test/resources/bee_movie.txt";

fn bee_movie() -> PathTarget {
    PathTarget::File(Some(b"The bee, of course, flies anyway.\n".to_vec()))
}

#[test]
fn test_opening_bee_movie_script() {
    let file = parse_path(Some(BEE_MOVIE_FILE_NAME.as_bytes()), &bee_movie());
    assert!(
        file.is_ok(),
        "Could not open test resource \"bee_movie.txt\" from its name"
    );
}

#[test]
fn test_opening_nonexistant_file_returns_appropriate_error_code() {
    let filename = "non_existant_file.txt".as_bytes();
    assert_eq!(
        SearchStatusCode::ErrorCouldNotOpenFile,
        parse_path(Some(filename), &PathTarget::Missing)
            .expect_err("Should not have been able to open missing file")
    );
}

#[test]
fn test_opening_null_filename_returns_appropriate_error_code() {
    assert_eq!(
        SearchStatusCode::MissingFilename,
        parse_path(None, &bee_movie())
            .expect_err("Should not have been able to open a file with a null filename")
    );
}

#[test]
fn test_parsing_bee_regex() {
    let search_text = "[Bb]ee".as_bytes();
    let file = parse_search_text(Some(search_text));
    assert!(
        file.is_ok(),
        "Could not parse search text \"[Bb]ee\" from its bytes"
    );
}

#[test]
fn test_opening_null_search_text_returns_appropriate_error_code() {
    assert_eq!(
        Some(SearchStatusCode::MissingSearchText),
        parse_search_text(None).err(),
        "Should not have been able to parse a search regex from a null string"
    );
}

#[test]
fn path_text_is_used_as_it_was_given() {
    let path = parse_path(Some("./a/../b//c d.txt".as_bytes()), &bee_movie());
    assert_eq!(Ok("./a/../b//c d.txt".to_string()), path);
    let path = parse_path(Some("caf\u{e9}".as_bytes()), &PathTarget::Directory(Vec::new()));
    assert_eq!(Ok("caf\u{e9}".to_string()), path);
    let path = parse_path(Some(b"/dev/null"), &PathTarget::Other);
    assert_eq!(Ok("/dev/null".to_string()), path);
}

#[test]
fn path_that_is_not_utf8_is_reported_as_could_not_open() {
    assert_eq!(
        Err(SearchStatusCode::ErrorCouldNotOpenFile),
        parse_path(Some(&[0x62, 0x65, 0x65, 0x80]), &bee_movie())
    );
}

#[test]
fn compiled_pattern_keeps_its_text() {
    let matcher = parse_search_text(Some("gradua(tion|te)".as_bytes())).ok().unwrap();
    assert_eq!("gradua(tion|te)", matcher.pattern());
}

#[test]
fn pattern_that_does_not_compile_is_a_bad_pattern() {
    assert_eq!(Some(SearchStatusCode::ErrorBadPattern), parse_search_text(Some(b"[Bb")).err());
    assert_eq!(Some(SearchStatusCode::ErrorBadPattern), parse_search_text(Some(b"(bee")).err());
    assert_eq!(Some(SearchStatusCode::ErrorBadPattern), parse_search_text(Some(b"a{2,1}")).err());
}

#[test]
fn pattern_that_is_not_utf8_is_a_bad_pattern() {
    assert_eq!(
        Some(SearchStatusCode::ErrorBadPattern),
        parse_search_text(Some(&[0x62, 0xff])).err()
    );
}

#[test]
fn empty_pattern_compiles() {
    assert!(parse_search_text(Some(b"")).is_ok());
}

#[test]
fn to_string_decodes_utf8_and_refuses_anything_else() {
    assert_eq!(Some("bee \u{1f41d}".to_string()), to_string("bee \u{1f41d}".as_bytes()).ok());
    assert_eq!(Some(String::new()), to_string(b"").ok());
    assert!(to_string(&[0xe2, 0x82]).is_err());
    assert!(to_string(&[0xed, 0xa0, 0x80]).is_err());
}
