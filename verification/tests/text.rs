use stockfish::text::{
    chars_of, find_field, has_char, has_text, head_of, join_text, same_text, split_fields, tail_of,
    to_strings,
};

fn owned(parts: &[&str]) -> Vec<String> {
    parts.iter().map(|p| p.to_string()).collect()
}

#[test]
fn chars_of_gives_every_character() {
    assert_eq!(chars_of("a b"), vec!['a', ' ', 'b']);
    assert_eq!(chars_of(""), Vec::<char>::new());
    assert_eq!(chars_of("é♞"), vec!['é', '♞']);
}

#[test]
fn same_text_compares_character_for_character() {
    assert!(same_text("readyok", "readyok"));
    assert!(!same_text("readyok", "readyok "));
    assert!(!same_text("readyok", "readyoK"));
    assert!(same_text("", ""));
    assert!(!same_text("", "a"));
}

#[test]
fn has_char_finds_a_character() {
    assert!(has_char("8/8 w - -", 'w'));
    assert!(!has_char("8/8 b - -", 'w'));
    assert!(!has_char("", 'w'));
}

#[test]
fn has_text_finds_a_substring() {
    assert!(has_text("Checkers: ", "Checkers"));
    assert!(has_text("Legal Checkers", "Checkers"));
    assert!(has_text("xCheckersx", "Checkers"));
    assert!(!has_text("Checker", "Checkers"));
    assert!(!has_text("checkers", "Checkers"));
    assert!(!has_text("", "Checkers"));
}

#[test]
fn has_text_finds_the_empty_text_everywhere() {
    assert!(has_text("abc", ""));
    assert!(has_text("", ""));
}

#[test]
fn has_text_agrees_with_std() {
    let texts = ["", "a", "ab", "aab", "abab", "Checkers", "xChe Checkers"];
    for s in texts {
        for p in texts {
            assert_eq!(has_text(s, p), s.contains(p), "{s:?} {p:?}");
        }
    }
}

#[test]
fn split_fields_splits_at_every_space() {
    assert_eq!(split_fields("bestmove e2e4 ponder e7e5"), owned(&["bestmove", "e2e4", "ponder", "e7e5"]));
    assert_eq!(split_fields("readyok"), owned(&["readyok"]));
}

#[test]
fn split_fields_keeps_empty_fields() {
    assert_eq!(split_fields(""), owned(&[""]));
    assert_eq!(split_fields(" "), owned(&["", ""]));
    assert_eq!(split_fields("a  b"), owned(&["a", "", "b"]));
    assert_eq!(split_fields(" a"), owned(&["", "a"]));
    assert_eq!(split_fields("a "), owned(&["a", ""]));
}

#[test]
fn split_fields_agrees_with_std() {
    for s in ["", " ", "  ", "a", "a b", " a b ", "info depth 1  score cp 2", "Fen: 8/8 w - - 0 1"] {
        let expected: Vec<String> = s.split(' ').map(|p| p.to_string()).collect();
        assert_eq!(split_fields(s), expected, "{s:?}");
    }
}

#[test]
fn head_and_tail_part_a_line_at_its_first_space() {
    assert_eq!(head_of("Fen: 8/8 w - - 0 1"), "Fen:");
    assert_eq!(tail_of("Fen: 8/8 w - - 0 1"), "8/8 w - - 0 1");
    assert_eq!(head_of("Fen:"), "Fen:");
    assert_eq!(tail_of("Fen:"), "");
    assert_eq!(head_of(" x"), "");
    assert_eq!(tail_of(" x"), "x");
    assert_eq!(tail_of("a  b"), " b");
    assert_eq!(head_of(""), "");
    assert_eq!(tail_of(""), "");
}

#[test]
fn find_field_gives_the_first_position() {
    let parts = owned(&["info", "score", "cp", "1", "score", "mate", "2"]);
    assert_eq!(find_field(&parts, "score"), 1);
    assert_eq!(find_field(&parts, "info"), 0);
    assert_eq!(find_field(&parts, "depth"), 7);
    assert_eq!(find_field(&Vec::new(), "depth"), 0);
}

#[test]
fn join_text_puts_the_separator_between_neighbours() {
    assert_eq!(join_text(&owned(&["e2e4", "e7e5", "g1f3"]), " "), "e2e4 e7e5 g1f3");
    assert_eq!(join_text(&owned(&["e2e4"]), " "), "e2e4");
    assert_eq!(join_text(&owned(&[]), " "), "");
    assert_eq!(join_text(&owned(&["a", "", "b"]), "\n"), "a\n\nb");
    assert_eq!(join_text(&owned(&["", ""]), ", "), ", ");
}

#[test]
fn joining_the_fields_of_a_text_gives_it_back() {
    for s in ["", " ", "a", "a b", " a  b ", "position fen 8/8 w - - 0 1 moves e2e4"] {
        assert_eq!(join_text(&split_fields(s), " "), s);
    }
}

#[test]
fn to_strings_copies_each_text() {
    assert_eq!(to_strings(&["e2e4", "", "g7g8q"]), owned(&["e2e4", "", "g7g8q"]));
    assert_eq!(to_strings(&[]), Vec::<String>::new());
}
