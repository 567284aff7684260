//! Tests of the lexer and the token types.

use file_lang::lexer::Lexer;
use file_lang::tokens::{Token, TokenKind};

fn lex_kinds(src: &str) -> Vec<TokenKind> {
    let mut lexer = Lexer::new(src);
    lexer
        .lex()
        .unwrap()
        .into_iter()
        .map(|t| t.kind)
        .collect()
}

#[test]
fn keywords_match_without_regard_to_case() {
    let kinds = lex_kinds("OPEN \"x\" As f");
    assert!(matches!(kinds[0], TokenKind::Open));
    assert!(matches!(kinds[2], TokenKind::As));
    assert!(matches!(kinds[3], TokenKind::Identifier(_)));
}

#[test]
fn identifiers_keep_their_original_case() {
    let kinds = lex_kinds("show MyVar");
    match &kinds[1] {
        TokenKind::Identifier(s) => assert_eq!(s, "MyVar"),
        other => panic!("expected identifier, got {:?}", other),
    }
}

#[test]
fn string_literals_are_copied_verbatim() {
    let kinds = lex_kinds("write f \"a b\tc # no comment\"");
    match &kinds[2] {
        TokenKind::String(s) => assert_eq!(s, "a b\tc # no comment"),
        other => panic!("expected string, got {:?}", other),
    }
}

#[test]
fn stream_always_ends_with_end_of_statement() {
    let kinds = lex_kinds("show f");
    assert!(matches!(kinds.last().unwrap(), TokenKind::EndOfStatement));
    let kinds = lex_kinds("");
    assert_eq!(kinds.len(), 1);
    assert!(matches!(kinds[0], TokenKind::EndOfStatement));
}

#[test]
fn newline_and_semicolon_both_separate() {
    let kinds = lex_kinds("help\nhelp;help");
    let seps = kinds
        .iter()
        .filter(|k| matches!(k, TokenKind::EndOfStatement))
        .count();
    assert_eq!(seps, 3);
}

#[test]
fn comments_run_to_the_end_of_the_line() {
    let kinds = lex_kinds("# hello world\nhelp");
    assert!(matches!(kinds[0], TokenKind::EndOfStatement));
    assert!(matches!(kinds[1], TokenKind::Help));
}

#[test]
fn unterminated_string_is_a_lex_error() {
    let mut lexer = Lexer::new("write f \"never closed");
    let err = lexer.lex().unwrap_err();
    assert_eq!(
        err.message(),
        "Unterminated string starting at position 9"
    );
}

#[test]
fn unexpected_character_is_a_lex_error() {
    let mut lexer = Lexer::new("show f!");
    let err = lexer.lex().unwrap_err();
    assert_eq!(err.message(), "Unexpected character '!' at position 6");
}

#[test]
fn token_positions_are_byte_offsets() {
    let mut lexer = Lexer::new("open \"x\" as f");
    let tokens = lexer.lex().unwrap();
    assert_eq!(tokens[0].pos, 0);
    assert_eq!(tokens[1].pos, 5);
    assert_eq!(tokens[2].pos, 9);
    assert_eq!(tokens[3].pos, 12);
}

#[test]
fn identifier_characters_include_dot_dash_underscore() {
    let kinds = lex_kinds("show a_b-c.txt");
    match &kinds[1] {
        TokenKind::Identifier(s) => assert_eq!(s, "a_b-c.txt"),
        other => panic!("expected identifier, got {:?}", other),
    }
}

#[test]
fn eq_ignore_value_compares_shapes_only() {
    let a = TokenKind::Identifier("x".to_string());
    let b = TokenKind::Identifier("y".to_string());
    assert!(a.eq_ignore_value(&b));
    assert!(!a.eq_ignore_value(&TokenKind::String("x".to_string())));
    assert!(TokenKind::Open.eq_ignore_value(&TokenKind::Open));
    assert!(!TokenKind::Open.eq_ignore_value(&TokenKind::Close));
}

#[test]
fn clone_with_value_from_takes_the_payload() {
    let pattern = TokenKind::Identifier(String::new());
    let got = TokenKind::Identifier("payload".to_string());
    match pattern.clone_with_value_from(&got) {
        TokenKind::Identifier(s) => assert_eq!(s, "payload"),
        other => panic!("expected identifier, got {:?}", other),
    }
    match TokenKind::Open.clone_with_value_from(&got) {
        TokenKind::Open => {}
        other => panic!("expected open, got {:?}", other),
    }
}

#[test]
fn token_new_stores_kind_and_position() {
    let t = Token::new(TokenKind::Help, 7);
    assert_eq!(t.pos, 7);
    assert!(matches!(t.kind, TokenKind::Help));
}

#[test]
fn canonical_text_relexes_to_the_same_kinds() {
    let src = "open \"t.txt\" as f\nwrite f \"alpha beta\"\nsearch f \"a+\"\nexit";
    let first = lex_kinds(src);
    // Serialize canonically: keywords in lower case, strings re-quoted,
    // separators as newlines.
    let mut text = String::new();
    for k in &first {
        match k {
            TokenKind::Open => text.push_str("open "),
            TokenKind::Read => text.push_str("read "),
            TokenKind::Write => text.push_str("write "),
            TokenKind::Append => text.push_str("append "),
            TokenKind::Close => text.push_str("close "),
            TokenKind::Show => text.push_str("show "),
            TokenKind::Exit => text.push_str("exit "),
            TokenKind::As => text.push_str("as "),
            TokenKind::Truncate => text.push_str("truncate "),
            TokenKind::Search => text.push_str("search "),
            TokenKind::Replace => text.push_str("replace "),
            TokenKind::LineCount => text.push_str("linecount "),
            TokenKind::Copy => text.push_str("copy "),
            TokenKind::Move => text.push_str("move "),
            TokenKind::Remove => text.push_str("remove "),
            TokenKind::Rename => text.push_str("rename "),
            TokenKind::ListDir => text.push_str("listdir "),
            TokenKind::DumpEnv => text.push_str("dumpenv "),
            TokenKind::Help => text.push_str("help "),
            TokenKind::Identifier(s) => {
                text.push_str(s);
                text.push(' ');
            }
            TokenKind::String(s) => {
                text.push('"');
                text.push_str(s);
                text.push('"');
                text.push(' ');
            }
            TokenKind::EndOfStatement => text.push('\n'),
        }
    }
    let second = lex_kinds(&text);
    // Re-lexing appends one more trailing end-of-statement token.
    assert_eq!(second.len(), first.len() + 1);
    for (a, b) in first.iter().zip(second.iter()) {
        match (a, b) {
            (TokenKind::Identifier(x), TokenKind::Identifier(y)) => assert_eq!(x, y),
            (TokenKind::String(x), TokenKind::String(y)) => assert_eq!(x, y),
            (x, y) => assert!(x.eq_ignore_value(y)),
        }
    }
    assert!(matches!(second.last().unwrap(), TokenKind::EndOfStatement));
}
