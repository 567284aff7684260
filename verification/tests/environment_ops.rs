//! Tests of the environment's state machine and of the text utilities
//! behind search, replace and line counting.

use file_lang::environment::Environment;
use file_lang::utils::{is_identifier_char, replace_in_text, search_in_text, split_lines, str_eq, usize_to_string};

#[test]
fn open_then_content_ops() {
    let mut env = Environment::new();
    env.open_file("f".to_string(), "a.txt".to_string()).unwrap();
    env.write_file_content("f", "one\ntwo").unwrap();
    assert_eq!(env.get_file_content("f").unwrap(), "one\ntwo");
    assert_eq!(env.line_count("f").unwrap(), 2);
}

#[test]
fn open_while_open_fails() {
    let mut env = Environment::new();
    env.open_file("f".to_string(), "a.txt".to_string()).unwrap();
    let err = env.open_file("f".to_string(), "b.txt".to_string()).unwrap_err();
    assert_eq!(err.message(), "Variable 'f' already has an open file.");
}

#[test]
fn close_then_reopen_resets_content() {
    let mut env = Environment::new();
    env.open_file("f".to_string(), "a.txt".to_string()).unwrap();
    env.write_file_content("f", "payload").unwrap();
    env.close_file("f").unwrap();
    let err = env.get_file_content("f").unwrap_err();
    assert_eq!(err.message(), "Variable 'f' file is not open.");
    env.open_file("f".to_string(), "b.txt".to_string()).unwrap();
    assert_eq!(env.get_file_content("f").unwrap(), "");
    assert_eq!(env.get_filename("f").unwrap(), "b.txt");
}

#[test]
fn close_twice_fails() {
    let mut env = Environment::new();
    env.open_file("f".to_string(), "a.txt".to_string()).unwrap();
    env.close_file("f").unwrap();
    let err = env.close_file("f").unwrap_err();
    assert_eq!(err.message(), "Variable 'f' file is not open.");
}

#[test]
fn absent_variable_is_reported() {
    let mut env = Environment::new();
    let err = env.write_file_content("ghost", "x").unwrap_err();
    assert_eq!(err.message(), "No such variable 'ghost'");
}

#[test]
fn append_concatenates() {
    let mut env = Environment::new();
    env.open_file("f".to_string(), "a.txt".to_string()).unwrap();
    env.write_file_content("f", "ab").unwrap();
    env.append_file_content("f", "cd").unwrap();
    assert_eq!(env.get_file_content("f").unwrap(), "abcd");
}

#[test]
fn truncate_empties_content() {
    let mut env = Environment::new();
    env.open_file("f".to_string(), "a.txt".to_string()).unwrap();
    env.write_file_content("f", "data").unwrap();
    env.truncate_file("f").unwrap();
    assert_eq!(env.get_file_content("f").unwrap(), "");
    env.truncate_file("f").unwrap();
    assert_eq!(env.get_file_content("f").unwrap(), "");
}

#[test]
fn search_file_numbers_lines_from_one() {
    let mut env = Environment::new();
    env.open_file("f".to_string(), "a.txt".to_string()).unwrap();
    env.write_file_content("f", "aaa\nbbb\naba").unwrap();
    let ms = env.search_file("f", "b").unwrap();
    assert_eq!(ms, vec![(2, "bbb".to_string()), (3, "aba".to_string())]);
}

#[test]
fn replace_file_substitutes_all_matches() {
    let mut env = Environment::new();
    env.open_file("f".to_string(), "a.txt".to_string()).unwrap();
    env.write_file_content("f", "x1 x2 x3").unwrap();
    env.replace_file("f", "x[0-9]", "y").unwrap();
    assert_eq!(env.get_file_content("f").unwrap(), "y y y");
}

#[test]
fn replace_with_invalid_pattern_leaves_content() {
    let mut env = Environment::new();
    env.open_file("f".to_string(), "a.txt".to_string()).unwrap();
    env.write_file_content("f", "keep").unwrap();
    let err = env.replace_file("f", "[", "y").unwrap_err();
    assert!(err.message().starts_with("Invalid regex '[': "));
    assert_eq!(env.get_file_content("f").unwrap(), "keep");
}

#[test]
fn rename_updates_stored_filename() {
    let mut env = Environment::new();
    env.open_file("f".to_string(), "a.txt".to_string()).unwrap();
    env.rename_file("f", "b.txt").unwrap();
    assert_eq!(env.get_filename("f").unwrap(), "b.txt");
}

#[test]
fn dump_renders_heading_and_entries() {
    let mut env = Environment::new();
    assert_eq!(env.dump(), vec!["Environment Variables:", "  (none)"]);
    env.open_file("f".to_string(), "a.txt".to_string()).unwrap();
    env.close_file("f").unwrap();
    assert_eq!(
        env.dump(),
        vec!["Environment Variables:", "  f -> a.txt [closed]"]
    );
}

#[test]
fn search_in_text_is_per_line() {
    let ms = search_in_text("one\ntwo needle\nthree", "needle").unwrap();
    assert_eq!(ms, vec![(2, "two needle".to_string())]);
    assert!(search_in_text("", "x").unwrap().is_empty());
    assert!(search_in_text("", "(").is_err());
}

#[test]
fn replace_in_text_handles_all_matches() {
    assert_eq!(replace_in_text("foo bar foo", "foo", "baz").unwrap(), "baz bar baz");
    assert_eq!(replace_in_text("a1b2", "[0-9]", "").unwrap(), "ab");
    assert!(replace_in_text("x", "(", "y").is_err());
}

#[test]
fn split_lines_matches_std_lines() {
    for text in ["", "a", "a\nb", "a\n", "a\r\nb", "\n\n", "one\r\n", "bare\r"] {
        let expected: Vec<String> = text.lines().map(|l| l.to_string()).collect();
        assert_eq!(split_lines(text), expected, "text: {:?}", text);
    }
}

#[test]
fn identifier_character_class() {
    assert!(is_identifier_char('a'));
    assert!(is_identifier_char('Z'));
    assert!(is_identifier_char('7'));
    assert!(is_identifier_char('_'));
    assert!(is_identifier_char('-'));
    assert!(is_identifier_char('.'));
    assert!(!is_identifier_char(' '));
    assert!(!is_identifier_char('"'));
    assert!(!is_identifier_char('#'));
}

#[test]
fn number_rendering() {
    assert_eq!(usize_to_string(0), "0");
    assert_eq!(usize_to_string(7), "7");
    assert_eq!(usize_to_string(230), "230");
    assert_eq!(usize_to_string(10001), "10001");
}

#[test]
fn str_eq_compares_by_characters() {
    assert!(str_eq("abc", "abc"));
    assert!(!str_eq("abc", "abd"));
    assert!(!str_eq("abc", "abcd"));
    assert!(str_eq("", ""));
}
