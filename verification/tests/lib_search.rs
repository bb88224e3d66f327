use search_dispatch::api::search_file;
use search_dispatch::status::SearchStatusCode;
use search_dispatch::tree::PathTarget;
use search_dispatch::types::SearchResult;

fn bee_movie() -> PathTarget {
    let script = "The bee, of course, flies anyway.\nYellow, black.\nBees wait for nobody.\n";
    PathTarget::File(Some(script.as_bytes().to_vec()))
}

fn always_succeeding_callback(_: SearchResult) -> bool {
    true
}

fn always_failing_callback(_: SearchResult) -> bool {
    false
}

#[test]
fn lib_test_search_for_bees_without_error() {
    let filename = "bee_movie.txt".as_bytes();
    let search_pattern = "[Bb]ee".as_bytes();
    let callback = always_succeeding_callback;

    let result_code = search_file(Some(filename), Some(search_pattern), Some(callback), &bee_movie());

    assert_eq!(SearchStatusCode::Success, result_code,
        "When the callback returns true to indicate success, the search_file function should always return {:?}", SearchStatusCode::Success);
}

#[test]
fn lib_test_search_for_bees_returns_callback_error_code_when_callback_returns_false() {
    let filename = "bee_movie.txt".as_bytes();
    let search_pattern = "[Bb]ee".as_bytes();
    let callback = always_failing_callback;

    let result_code = search_file(Some(filename), Some(search_pattern), Some(callback), &bee_movie());

    assert_eq!(SearchStatusCode::ErrorFromCallback, result_code,
        "When the callback returns false to indicate an error, the search_file function should always return {:?}", SearchStatusCode::ErrorFromCallback);
}

#[test]
fn lib_test_search_for_bees_returns_could_not_open_file_error_code_when_searching_missing_file() {
    let filename = "non_existant_file.txt".as_bytes();
    let search_pattern = "[Bb]ee".as_bytes();
    let callback = always_failing_callback;

    let result_code =
        search_file(Some(filename), Some(search_pattern), Some(callback), &PathTarget::Missing);

    assert_eq!(SearchStatusCode::ErrorCouldNotOpenFile, result_code,
        "When passing the name of a file that does not exist, the search_file function should always return {:?}", SearchStatusCode::ErrorCouldNotOpenFile);
}
