use rolling::util::{extract_block_from_source, last_char_is, top_chars_contains};

#[test]
fn extract_block_from_source_ok_one_block() {
    let result =
        extract_block_from_source("BLOCK_NAME", &String::from("::BLOCK_NAME\nline1\nline2"));
    assert_eq!(String::from("line1\nline2"), result.unwrap())
}

#[test]
fn extract_block_from_source_ok_second_block() {
    let result = extract_block_from_source(
        "BLOCK_NAME",
        &String::from("::BLOCKA\nlinea\n::BLOCK_NAME\nline1\nline2"),
    );
    assert_eq!(String::from("line1\nline2"), result.unwrap())
}

#[test]
fn extract_block_from_source_ok_not_last_block() {
    let result = extract_block_from_source(
        "BLOCKA",
        &String::from("::BLOCKA\nlinea\n::BLOCK_NAME\nline1\nline2"),
    );
    assert_eq!(String::from("linea"), result.unwrap())
}

#[test]
#[should_panic]
fn extract_block_from_source_err_no_block() {
    extract_block_from_source(
        "BLOCK_NAME_UNKNOWN",
        &String::from("::BLOCK_NAME\nline1\nline2"),
    )
    .unwrap();
}

#[test]
fn last_char_is_ok() {
    let chars: Vec<Vec<char>> = vec![vec![]];
    assert!(!last_char_is('a', &chars));

    let chars = vec![vec!['a']];
    assert!(last_char_is('a', &chars));

    let chars = vec![vec!['a', 'b']];
    assert!(!last_char_is('a', &chars));

    let chars = vec![vec!['a', 'b', 'c']];
    assert!(!last_char_is('a', &chars));

    let chars = vec![vec!['a', 'b', 'c'], vec![]];
    assert!(!last_char_is('a', &chars));

    let chars = vec![vec!['a', 'b', 'c'], vec!['a']];
    assert!(last_char_is('a', &chars));

    let chars = vec![vec!['a', 'b', 'c'], vec!['a', 'b']];
    assert!(!last_char_is('a', &chars));
}

#[test]
fn top_chars_contains_ok() {
    let chars: Vec<Vec<char>> = vec![vec![]];
    assert!(!top_chars_contains('a', &chars));

    let chars = vec![vec!['a', 'b', 'c']];
    assert!(!top_chars_contains('a', &chars));

    let chars = vec![vec!['a', 'b', 'c'], vec![]];
    assert!(top_chars_contains('a', &chars));
    assert!(top_chars_contains('b', &chars));
    assert!(!top_chars_contains('c', &chars));

    let chars = vec![vec!['a', 'b', 'c'], vec!['x']];
    assert!(top_chars_contains('a', &chars));
    assert!(top_chars_contains('b', &chars));
    assert!(top_chars_contains('c', &chars));

    let chars = vec![vec!['a', 'b', 'c'], vec!['x', 'y']];
    assert!(!top_chars_contains('a', &chars));
    assert!(top_chars_contains('b', &chars));
    assert!(top_chars_contains('c', &chars));

    let chars = vec![vec!['a', 'b', 'c'], vec!['x', 'y', 'z']];
    assert!(!top_chars_contains('a', &chars));
    assert!(!top_chars_contains('b', &chars));
    assert!(top_chars_contains('c', &chars));
}

#[test]
fn missing_block_is_named_in_the_error() {
    let result = extract_block_from_source(
        "BLOCK_NAME_UNKNOWN",
        &String::from("::BLOCK_NAME\nline1\nline2"),
    );
    assert_eq!(
        "Block \"BLOCK_NAME_UNKNOWN\" not found",
        result.unwrap_err().message
    );
}

#[test]
fn header_blanks_and_colons_are_no_part_of_the_name() {
    let source = String::from(":: GEO ::\nab\ncd\n::END\nef");
    assert_eq!("ab\ncd", extract_block_from_source("GEO", &source).unwrap());
    assert_eq!("ef", extract_block_from_source("END", &source).unwrap());
}

#[test]
fn block_ends_at_the_next_header() {
    let source = String::from("::A\none\n::A\ntwo\n::B\nthree\n:: B\nfour");
    assert_eq!("one", extract_block_from_source("A", &source).unwrap());
    assert_eq!("three", extract_block_from_source("B", &source).unwrap());
}

#[test]
fn lines_before_the_block_are_left_out() {
    let source = String::from("intro\n::A\n\nx\n");
    assert_eq!("\nx", extract_block_from_source("A", &source).unwrap());
}

#[test]
fn empty_block_is_found() {
    let source = String::from("::A\n::B\nx");
    assert_eq!("", extract_block_from_source("A", &source).unwrap());
    assert!(extract_block_from_source("C", &String::new()).is_err());
}

#[test]
fn carriage_returns_end_lines_too() {
    let source = String::from("::A\r\nab\r\ncd\r\n");
    assert_eq!("ab\ncd", extract_block_from_source("A", &source).unwrap());
}

#[test]
fn top_window_is_clipped_to_the_row_above() {
    let chars = vec![vec!['a'], vec![]];
    assert!(top_chars_contains('a', &chars));
    assert!(!top_chars_contains('b', &chars));

    let chars = vec![vec![], vec![]];
    assert!(!top_chars_contains('a', &chars));

    let chars = vec![vec!['a', 'b'], vec!['x', 'y', 'z', 'w']];
    assert!(!top_chars_contains('a', &chars));
    assert!(!top_chars_contains('b', &chars));

    let chars = vec![vec!['a', 'b'], vec!['x', 'y', 'z']];
    assert!(!top_chars_contains('a', &chars));
    assert!(!top_chars_contains('b', &chars));

    let chars = vec![vec!['a', 'b'], vec!['x', 'y']];
    assert!(!top_chars_contains('a', &chars));
    assert!(top_chars_contains('b', &chars));

    let chars = vec![vec!['q'], vec!['a', 'b', 'c'], vec!['x']];
    assert!(!top_chars_contains('q', &chars));
    assert!(top_chars_contains('c', &chars));
}

#[test]
fn block_names_of_the_source_format() {
    assert_eq!("GEO", rolling::util::BLOCK_GEO);
    assert_eq!("LEGEND", rolling::util::BLOCK_LEGEND);
}
