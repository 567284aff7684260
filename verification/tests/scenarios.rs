//! End-to-end scenarios: lex, parse, and interpret whole scripts against an
//! in-memory disk.

use std::collections::HashMap;

use file_lang::interpreter::{DiskAction, DiskOutcome, Interpreter};
use file_lang::lexer::Lexer;
use file_lang::parser::Parser;

/// Perform one disk action against an in-memory table of files.
fn perform(disk: &mut HashMap<String, String>, action: DiskAction) -> DiskOutcome {
    match action {
        DiskAction::NoDisk => DiskOutcome::Done,
        DiskAction::ReadFile { path } => match disk.get(&path) {
            Some(text) => DiskOutcome::DoneText { text: text.clone() },
            None => DiskOutcome::Failed { message: format!("no such file: {}", path) },
        },
        DiskAction::WriteFile { path, text } => {
            disk.insert(path, text);
            DiskOutcome::Done
        }
        DiskAction::AppendFile { path, text } => {
            let entry = disk.entry(path).or_insert_with(String::new);
            entry.push_str(&text);
            DiskOutcome::Done
        }
        DiskAction::CopyFile { source, destination } => match disk.get(&source) {
            Some(text) => {
                let copied = text.clone();
                disk.insert(destination, copied);
                DiskOutcome::Done
            }
            None => DiskOutcome::Failed { message: format!("no such file: {}", source) },
        },
        DiskAction::MoveFile { source, destination } => match disk.remove(&source) {
            Some(text) => {
                disk.insert(destination, text);
                DiskOutcome::Done
            }
            None => DiskOutcome::Failed { message: format!("no such file: {}", source) },
        },
        DiskAction::RemoveFile { path } => match disk.remove(&path) {
            Some(_) => DiskOutcome::Done,
            None => DiskOutcome::Failed { message: format!("no such file: {}", path) },
        },
        DiskAction::RenameFile { from, to } => match disk.remove(&from) {
            Some(text) => {
                disk.insert(to, text);
                DiskOutcome::Done
            }
            None => DiskOutcome::Failed { message: format!("no such file: {}", from) },
        },
        DiskAction::ListDirectory { path } => {
            let mut names: Vec<String> = disk.keys().cloned().collect();
            names.sort();
            let _ = path;
            DiskOutcome::DoneListing { names }
        }
    }
}

/// Run a whole script and collect its console output.
fn run_script(src: &str, disk: &mut HashMap<String, String>) -> Result<Vec<String>, String> {
    let mut lexer = Lexer::new(src);
    let tokens = lexer.lex().map_err(|e| e.message().clone())?;
    let mut parser = Parser::new(tokens);
    let ast = parser.parse().map_err(|e| e.message().clone())?;
    let mut interp = Interpreter::new();
    let mut out: Vec<String> = Vec::new();
    for stmt in &ast.statements {
        if interp.stopped() {
            break;
        }
        let action = interp.plan_statement(stmt).map_err(|e| e.message().clone())?;
        let outcome = perform(disk, action);
        let mut lines = interp
            .apply_statement(stmt, outcome)
            .map_err(|e| e.message().clone())?;
        out.append(&mut lines);
    }
    Ok(out)
}

#[test]
fn scenario_linecount_two_lines() {
    let mut disk = HashMap::new();
    let out = run_script(
        "open \"t.txt\" as f\nwrite f \"alpha\nbeta\"\nlinecount f",
        &mut disk,
    )
    .unwrap();
    assert!(out.contains(&"2 lines".to_string()));
    assert_eq!(disk.get("t.txt").unwrap(), "alpha\nbeta");
}

#[test]
fn scenario_replace_then_show() {
    let mut disk = HashMap::new();
    let out = run_script(
        "open \"t.txt\" as f\nwrite f \"foo bar foo\"\nreplace f \"foo\" \"baz\"\nshow f",
        &mut disk,
    )
    .unwrap();
    assert_eq!(out, vec!["baz bar baz".to_string()]);
    assert_eq!(disk.get("t.txt").unwrap(), "baz bar baz");
}

#[test]
fn scenario_search_without_matches() {
    let mut disk = HashMap::new();
    let out = run_script(
        "open \"t.txt\" as f\nwrite f \"abc\ndef\"\nsearch f \"xyz\"",
        &mut disk,
    )
    .unwrap();
    assert_eq!(out, vec!["No matches found.".to_string()]);
}

#[test]
fn scenario_show_after_close_fails() {
    let mut disk = HashMap::new();
    let err = run_script("open \"t.txt\" as f\nclose f\nshow f", &mut disk).unwrap_err();
    assert_eq!(err, "Variable 'f' file is not open.");
}

#[test]
fn comments_and_blank_lines_run_silently() {
    let mut disk = HashMap::new();
    let out = run_script("# a comment only\n\n   \n# another comment\n;\n", &mut disk).unwrap();
    assert!(out.is_empty());
}

#[test]
fn search_reports_matching_lines_with_numbers() {
    let mut disk = HashMap::new();
    let out = run_script(
        "open \"t.txt\" as f\nwrite f \"hay\nneedle here\nhay\nneedle again\"\nsearch f \"needle\"",
        &mut disk,
    )
    .unwrap();
    assert_eq!(
        out,
        vec!["2: needle here".to_string(), "4: needle again".to_string()]
    );
}

#[test]
fn exit_discards_remaining_statements() {
    let mut disk = HashMap::new();
    let out = run_script(
        "open \"t.txt\" as f\nwrite f \"kept\"\nexit\nshow f",
        &mut disk,
    )
    .unwrap();
    assert!(out.is_empty());
    assert_eq!(disk.get("t.txt").unwrap(), "kept");
}

#[test]
fn truncate_clears_memory_and_disk() {
    let mut disk = HashMap::new();
    let out = run_script(
        "open \"t.txt\" as f\nwrite f \"data\"\ntruncate f\nshow f",
        &mut disk,
    )
    .unwrap();
    assert_eq!(out, vec!["".to_string()]);
    assert_eq!(disk.get("t.txt").unwrap(), "");
}

#[test]
fn truncate_of_empty_open_file_is_idempotent() {
    let mut disk = HashMap::new();
    let out = run_script(
        "open \"t.txt\" as f\nwrite f \"\"\ntruncate f\ntruncate f\nshow f",
        &mut disk,
    )
    .unwrap();
    assert_eq!(out, vec!["".to_string()]);
    assert_eq!(disk.get("t.txt").unwrap(), "");
}

#[test]
fn read_pulls_disk_content_into_memory() {
    let mut disk = HashMap::new();
    disk.insert("t.txt".to_string(), "from disk".to_string());
    let out = run_script("open \"t.txt\" as f\nread f\nshow f", &mut disk).unwrap();
    assert_eq!(out, vec!["from disk".to_string()]);
}

#[test]
fn read_of_missing_file_fails_without_mutation() {
    let mut disk = HashMap::new();
    let err = run_script("open \"nope.txt\" as f\nread f", &mut disk).unwrap_err();
    assert_eq!(err, "Failed to read file 'nope.txt': no such file: nope.txt");
}

#[test]
fn append_extends_content() {
    let mut disk = HashMap::new();
    let out = run_script(
        "open \"t.txt\" as f\nwrite f \"ab\"\nappend f \"cd\"\nshow f",
        &mut disk,
    )
    .unwrap();
    assert_eq!(out, vec!["abcd".to_string()]);
    assert_eq!(disk.get("t.txt").unwrap(), "abcd");
}

#[test]
fn rename_keeps_variable_open_under_new_name() {
    let mut disk = HashMap::new();
    let out = run_script(
        "open \"a.txt\" as f\nwrite f \"x\"\nrename f \"b.txt\"\nwrite f \"y\"\nshow f",
        &mut disk,
    )
    .unwrap();
    assert_eq!(out, vec!["y".to_string()]);
    assert!(disk.get("a.txt").is_none());
    assert_eq!(disk.get("b.txt").unwrap(), "y");
}

#[test]
fn dumpenv_lists_bindings_with_state() {
    let mut disk = HashMap::new();
    let out = run_script(
        "open \"a.txt\" as f\nopen \"b.txt\" as g\nclose g\ndumpenv",
        &mut disk,
    )
    .unwrap();
    assert_eq!(
        out,
        vec![
            "Environment Variables:".to_string(),
            "  f -> a.txt [open]".to_string(),
            "  g -> b.txt [closed]".to_string(),
        ]
    );
}

#[test]
fn dumpenv_of_empty_environment() {
    let mut disk = HashMap::new();
    let out = run_script("dumpenv", &mut disk).unwrap();
    assert_eq!(
        out,
        vec!["Environment Variables:".to_string(), "  (none)".to_string()]
    );
}

#[test]
fn invalid_regex_is_a_runtime_error() {
    let mut disk = HashMap::new();
    let err = run_script(
        "open \"t.txt\" as f\nwrite f \"abc\"\nsearch f \"(\"",
        &mut disk,
    )
    .unwrap_err();
    assert!(err.starts_with("Invalid regex '(': "));
}

#[test]
fn open_twice_is_an_error() {
    let mut disk = HashMap::new();
    let err = run_script("open \"a.txt\" as f\nopen \"b.txt\" as f", &mut disk).unwrap_err();
    assert_eq!(err, "Variable 'f' already has an open file.");
}

#[test]
fn reopen_after_close_resets_content() {
    let mut disk = HashMap::new();
    let out = run_script(
        "open \"a.txt\" as f\nwrite f \"old\"\nclose f\nopen \"b.txt\" as f\nshow f",
        &mut disk,
    )
    .unwrap();
    assert_eq!(out, vec!["".to_string()]);
}

#[test]
fn unknown_variable_is_reported() {
    let mut disk = HashMap::new();
    let err = run_script("show nope", &mut disk).unwrap_err();
    assert_eq!(err, "No such variable 'nope'");
}

#[test]
fn semicolons_separate_statements() {
    let mut disk = HashMap::new();
    let out = run_script("open \"t.txt\" as f; write f \"hi\"; show f", &mut disk).unwrap();
    assert_eq!(out, vec!["hi".to_string()]);
}

#[test]
fn help_output_names_the_commands() {
    let mut disk = HashMap::new();
    let out = run_script("help", &mut disk).unwrap();
    assert_eq!(out.len(), 1);
    assert!(out[0].contains("Available commands:"));
    assert!(out[0].contains("linecount var"));
}

#[test]
fn copy_and_remove_work_on_disk_paths() {
    let mut disk = HashMap::new();
    disk.insert("src.txt".to_string(), "payload".to_string());
    let out = run_script("copy \"src.txt\" \"dst.txt\"\nremove \"src.txt\"", &mut disk).unwrap();
    assert!(out.is_empty());
    assert!(disk.get("src.txt").is_none());
    assert_eq!(disk.get("dst.txt").unwrap(), "payload");
}

#[test]
fn move_failure_is_wrapped() {
    let mut disk = HashMap::new();
    let err = run_script("move \"a\" \"b\"", &mut disk).unwrap_err();
    assert_eq!(err, "Failed to move file 'a' to 'b': no such file: a");
}

#[test]
fn listdir_of_empty_disk() {
    let mut disk = HashMap::new();
    let out = run_script("listdir \".\"", &mut disk).unwrap();
    assert_eq!(out, vec!["(empty directory)".to_string()]);
}
