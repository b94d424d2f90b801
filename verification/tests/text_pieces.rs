use fractal_viewer::text::{chars_of, contains_char, replace_text, same_text, split_piece};

#[test]
fn pieces_are_what_split_yields() {
    for text in ["", ";", "a;b", "a;b;c", ";;", "2.1;AAAA", "no separator", "\u{e9};\u{1f600};x"] {
        let expected: Vec<&str> = text.split(';').collect();
        for k in 0..5 {
            assert_eq!(split_piece(text, ';', k), expected.get(k).copied(), "{:?} {}", text, k);
        }
    }
}

#[test]
fn first_piece_always_exists() {
    assert_eq!(split_piece("", ';', 0), Some(""));
    assert_eq!(split_piece("abc", ';', 0), Some("abc"));
    assert_eq!(split_piece("abc", ';', 1), None);
    assert_eq!(split_piece("abc;", ';', 1), Some(""));
    assert_eq!(split_piece("abc;", ';', 2), None);
}

#[test]
fn replace_text_agrees_with_str_replace() {
    let cases = [
        ("", "x", "y"),
        ("abc", "b", "xyz"),
        ("aaa", "aa", "b"),
        ("aaaa", "aa", "b"),
        ("abab", "ab", ""),
        ("hello", "hello", "bye"),
        ("hello", "hello!", "bye"),
        ("a REPLACE b REPLACE c", "REPLACE", "REPLACE REPLACE"),
        ("\u{e9}t\u{e9}", "\u{e9}", "e"),
        ("x\u{1f600}y\u{1f600}", "\u{1f600}", "\u{e9}\u{e9}"),
        ("abcabc", "bc", "cb"),
        ("tail match", "ch", "CH"),
    ];
    for (s, from, to) in cases {
        assert_eq!(replace_text(s, from, to), s.replace(from, to), "{:?} {:?} {:?}", s, from, to);
    }
}

#[test]
fn replace_text_scans_from_the_left_without_overlap() {
    assert_eq!(replace_text("aaa", "aa", "b"), "ba");
    assert_eq!(replace_text("ababa", "aba", "X"), "Xba");
}

#[test]
fn an_empty_pattern_occurs_nowhere() {
    assert_eq!(replace_text("abc", "", "x"), "abc");
    assert_eq!(replace_text("", "", "x"), "");
}

#[test]
fn characters_are_counted_not_bytes() {
    assert_eq!(chars_of("a\u{e9}\u{1f600}"), vec!['a', '\u{e9}', '\u{1f600}']);
    assert_eq!(chars_of(""), Vec::<char>::new());
    assert!(contains_char("x?y", '?'));
    assert!(!contains_char("xy", '?'));
    assert!(!contains_char("", '?'));
    assert!(contains_char("\u{1f600}", '\u{1f600}'));
    assert!(same_text("abc", "abc"));
    assert!(!same_text("abc", "abd"));
    assert!(!same_text("abc", "ab"));
    assert!(same_text("", ""));
}
