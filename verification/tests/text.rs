use rolling::text::{
    chars_of, join_rows, push_decimal, push_signed, push_text, same_chars, same_text,
    split_lines, split_pieces, string_of,
};
use rolling::RollingError;

fn chars(s: &str) -> Vec<char> {
    s.chars().collect()
}

#[test]
fn text_to_characters_and_back() {
    assert_eq!(vec!['a', 'ፆ', '\n', ' '], chars_of("aፆ\n "));
    assert_eq!(Vec::<char>::new(), chars_of(""));
    assert_eq!("aፆ\n ", string_of(&vec!['a', 'ፆ', '\n', ' ']));
    assert_eq!("", string_of(&vec![]));
}

#[test]
fn same_text_is_same_characters() {
    assert!(same_text("SEA", "SEA"));
    assert!(!same_text("SEA", "SEa"));
    assert!(!same_text("SEA", "SEAS"));
    assert!(same_text("", ""));
    assert!(same_chars(&chars("ab"), &chars("ab")));
    assert!(!same_chars(&chars("ab"), &chars("ac")));
    assert!(!same_chars(&chars("ab"), &chars("a")));
    assert!(same_chars(&chars(""), &chars("")));
}

#[test]
fn lines_end_at_line_feeds() {
    for text in ["", "a", "a\n", "a\nb", "a\n\nb\n", "\n", "\n\n", "a\r\nb\r\n", "a\rb\r", "a\r\r\n", "\r\n"] {
        let expected: Vec<Vec<char>> = text.lines().map(chars).collect();
        assert_eq!(expected, split_lines(&chars(text)), "for {:?}", text);
    }
    assert_eq!(vec![chars("a"), chars(""), chars("b")], split_lines(&chars("a\n\nb\n")));
    assert_eq!(vec![chars("a\r")], split_lines(&chars("a\r\r\n")));
}

#[test]
fn pieces_are_one_more_than_line_feeds() {
    for text in ["", "a", "a\n", "a\nb", "a\n\nb\n", "\n", "a\r\nb"] {
        let expected: Vec<Vec<char>> = text.split('\n').map(chars).collect();
        assert_eq!(expected, split_pieces(&chars(text)), "for {:?}", text);
    }
    assert_eq!(vec![chars("a"), chars("")], split_pieces(&chars("a\n")));
}

#[test]
fn rows_are_joined_by_line_feeds() {
    assert_eq!(chars(""), join_rows(&vec![]));
    assert_eq!(chars("ab"), join_rows(&vec![chars("ab")]));
    assert_eq!(chars("ab\n\ncd"), join_rows(&vec![chars("ab"), chars(""), chars("cd")]));
    assert_eq!(chars("\n"), join_rows(&vec![chars(""), chars("")]));
}

#[test]
fn numbers_in_decimal() {
    for n in [0usize, 1, 9, 10, 11, 99, 100, 101, 1234567890, usize::MAX] {
        let mut out = chars("n=");
        push_decimal(n, &mut out);
        assert_eq!(format!("n={}", n), string_of(&out));
    }
    for n in [0i32, 5, -5, 10, -10, 123, i32::MAX, i32::MIN] {
        let mut out = chars("n=");
        push_signed(n, &mut out);
        assert_eq!(format!("n={}", n), string_of(&out));
    }
    let mut out = chars("a");
    push_text("bc", &mut out);
    push_text("", &mut out);
    assert_eq!(chars("abc"), out);
}

#[test]
fn error_carries_its_message() {
    let error = RollingError::new(String::from("went wrong"));
    assert_eq!("went wrong", error.message);
    assert_eq!("RollingError { message: \"went wrong\" }", format!("{:?}", error));
}
