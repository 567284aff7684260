//! Tests of the parser: the grammar table and its error messages.

use file_lang::ast::Statement;
use file_lang::lexer::Lexer;
use file_lang::parser::Parser;

fn parse_src(src: &str) -> Result<Vec<Statement>, String> {
    let mut lexer = Lexer::new(src);
    let tokens = lexer.lex().map_err(|e| e.message().clone())?;
    let mut parser = Parser::new(tokens);
    parser
        .parse()
        .map(|ast| ast.statements)
        .map_err(|e| e.message().clone())
}

#[test]
fn open_statement_carries_filename_and_variable() {
    let stmts = parse_src("open \"file.txt\" as f").unwrap();
    assert_eq!(stmts.len(), 1);
    match &stmts[0] {
        Statement::Open(s) => {
            assert_eq!(s.filename, "file.txt");
            assert_eq!(s.var_name, "f");
        }
        _ => panic!("expected an open statement"),
    }
}

#[test]
fn replace_takes_pattern_and_replacement() {
    let stmts = parse_src("replace f \"a\" \"b\"").unwrap();
    match &stmts[0] {
        Statement::Replace(s) => {
            assert_eq!(s.var_name, "f");
            assert_eq!(s.pattern, "a");
            assert_eq!(s.replacement, "b");
        }
        _ => panic!("expected a replace statement"),
    }
}

#[test]
fn copy_takes_two_strings() {
    let stmts = parse_src("copy \"a\" \"b\"").unwrap();
    match &stmts[0] {
        Statement::Copy(s) => {
            assert_eq!(s.source, "a");
            assert_eq!(s.destination, "b");
        }
        _ => panic!("expected a copy statement"),
    }
}

#[test]
fn empty_script_parses_to_no_statements() {
    assert!(parse_src("").unwrap().is_empty());
    assert!(parse_src("\n\n;;\n").unwrap().is_empty());
    assert!(parse_src("# comment\n# another\n").unwrap().is_empty());
}

#[test]
fn several_statements_in_order() {
    let stmts = parse_src("open \"x\" as f\nread f\nclose f").unwrap();
    assert_eq!(stmts.len(), 3);
    assert!(matches!(stmts[0], Statement::Open(_)));
    assert!(matches!(stmts[1], Statement::Read(_)));
    assert!(matches!(stmts[2], Statement::Close(_)));
}

#[test]
fn missing_filename_after_open() {
    let err = parse_src("open f").unwrap_err();
    assert_eq!(
        err,
        "Expected filename string after 'open': got Identifier(\"f\")"
    );
}

#[test]
fn missing_as_after_filename() {
    let err = parse_src("open \"x\" f").unwrap_err();
    assert_eq!(
        err,
        "Expected 'as' after filename in open statement: got Identifier(\"f\")"
    );
}

#[test]
fn missing_variable_after_read() {
    let err = parse_src("read \"x\"").unwrap_err();
    assert_eq!(err, "Expected variable name after 'read': got String(\"x\")");
}

#[test]
fn missing_text_after_write_variable() {
    let err = parse_src("write f").unwrap_err();
    assert_eq!(
        err,
        "Expected string after variable in 'write': got EndOfStatement"
    );
}

#[test]
fn unexpected_leading_token() {
    let err = parse_src("\"stray\"").unwrap_err();
    assert_eq!(err, "Unexpected token String(\"stray\") at position 0");
}

#[test]
fn trailing_tokens_before_end_of_statement() {
    let err = parse_src("show f g").unwrap_err();
    assert_eq!(
        err,
        "Expected end of statement at position 2 but found Identifier(\"g\")"
    );
}

#[test]
fn no_argument_statements() {
    let stmts = parse_src("dumpenv\nhelp\nexit").unwrap();
    assert!(matches!(stmts[0], Statement::DumpEnv(_)));
    assert!(matches!(stmts[1], Statement::Help(_)));
    assert!(matches!(stmts[2], Statement::Exit(_)));
}

#[test]
fn rename_takes_variable_and_string() {
    let stmts = parse_src("rename f \"new.txt\"").unwrap();
    match &stmts[0] {
        Statement::Rename(s) => {
            assert_eq!(s.var_name, "f");
            assert_eq!(s.new_filename, "new.txt");
        }
        _ => panic!("expected a rename statement"),
    }
}

#[test]
fn listdir_takes_a_path_string() {
    let stmts = parse_src("listdir \"some/dir\"").unwrap();
    match &stmts[0] {
        Statement::ListDir(s) => assert_eq!(s.path, "some/dir"),
        _ => panic!("expected a listdir statement"),
    }
}
