//! The Abstract Syntax Tree (AST) node structures for the language.
//!
//! Each type of statement is represented by a struct. The top-level AST is a
//! list of statements. The view of a statement gathers its fields into one
//! ghost variant per command.

use vstd::prelude::*;

verus! {

pub struct AST {
    /// A list of statements to be executed in order.
    pub statements: Vec<Statement>,
}

impl View for AST {
    type V = Seq<StmtModel>;

    open spec fn view(&self) -> Seq<StmtModel> {
        self.statements@.map_values(|s: Statement| s@)
    }
}

/// A statement in the language.
#[derive(Debug)]
pub enum Statement {
    Open(OpenStmt),
    Read(ReadStmt),
    Write(WriteStmt),
    Append(AppendStmt),
    Show(ShowStmt),
    Close(CloseStmt),
    Truncate(TruncateStmt),
    Search(SearchStmt),
    Replace(ReplaceStmt),
    LineCount(LineCountStmt),
    Copy(CopyStmt),
    Move(MoveStmt),
    Remove(RemoveStmt),
    Rename(RenameStmt),
    ListDir(ListDirStmt),
    DumpEnv(DumpEnvStmt),
    Help(HelpStmt),
    Exit(ExitStmt),
}

/// The shape of a statement, for specifications.
pub ghost enum StmtModel {
    Open { filename: Seq<char>, var_name: Seq<char> },
    Read { var_name: Seq<char> },
    Write { var_name: Seq<char>, text: Seq<char> },
    Append { var_name: Seq<char>, text: Seq<char> },
    Show { var_name: Seq<char> },
    Close { var_name: Seq<char> },
    Truncate { var_name: Seq<char> },
    Search { var_name: Seq<char>, pattern: Seq<char> },
    Replace { var_name: Seq<char>, pattern: Seq<char>, replacement: Seq<char> },
    LineCount { var_name: Seq<char> },
    Copy { source: Seq<char>, destination: Seq<char> },
    Move { source: Seq<char>, destination: Seq<char> },
    Remove { filename: Seq<char> },
    Rename { var_name: Seq<char>, new_filename: Seq<char> },
    ListDir { path: Seq<char> },
    DumpEnv,
    Help,
    Exit,
}

impl View for Statement {
    type V = StmtModel;

    open spec fn view(&self) -> StmtModel {
        match self {
            Statement::Open(s) => StmtModel::Open {
                filename: s.filename@,
                var_name: s.var_name@,
            },
            Statement::Read(s) => StmtModel::Read { var_name: s.var_name@ },
            Statement::Write(s) => StmtModel::Write { var_name: s.var_name@, text: s.text@ },
            Statement::Append(s) => StmtModel::Append { var_name: s.var_name@, text: s.text@ },
            Statement::Show(s) => StmtModel::Show { var_name: s.var_name@ },
            Statement::Close(s) => StmtModel::Close { var_name: s.var_name@ },
            Statement::Truncate(s) => StmtModel::Truncate { var_name: s.var_name@ },
            Statement::Search(s) => StmtModel::Search {
                var_name: s.var_name@,
                pattern: s.pattern@,
            },
            Statement::Replace(s) => StmtModel::Replace {
                var_name: s.var_name@,
                pattern: s.pattern@,
                replacement: s.replacement@,
            },
            Statement::LineCount(s) => StmtModel::LineCount { var_name: s.var_name@ },
            Statement::Copy(s) => StmtModel::Copy {
                source: s.source@,
                destination: s.destination@,
            },
            Statement::Move(s) => StmtModel::Move {
                source: s.source@,
                destination: s.destination@,
            },
            Statement::Remove(s) => StmtModel::Remove { filename: s.filename@ },
            Statement::Rename(s) => StmtModel::Rename {
                var_name: s.var_name@,
                new_filename: s.new_filename@,
            },
            Statement::ListDir(s) => StmtModel::ListDir { path: s.path@ },
            Statement::DumpEnv(_) => StmtModel::DumpEnv,
            Statement::Help(_) => StmtModel::Help,
            Statement::Exit(_) => StmtModel::Exit,
        }
    }
}

/// The `open` statement node.
#[derive(Debug)]
pub struct OpenStmt {
    pub filename: String,
    pub var_name: String,
}

/// The `read` statement node.
#[derive(Debug)]
pub struct ReadStmt {
    pub var_name: String,
}

/// The `write` statement node.
#[derive(Debug)]
pub struct WriteStmt {
    pub var_name: String,
    pub text: String,
}

/// The `append` statement node.
#[derive(Debug)]
pub struct AppendStmt {
    pub var_name: String,
    pub text: String,
}

/// The `show` statement node.
#[derive(Debug)]
pub struct ShowStmt {
    pub var_name: String,
}

/// The `close` statement node.
#[derive(Debug)]
pub struct CloseStmt {
    pub var_name: String,
}

/// The `truncate` statement node.
#[derive(Debug)]
pub struct TruncateStmt {
    pub var_name: String,
}

/// The `search` statement node: search var "pattern"
#[derive(Debug)]
pub struct SearchStmt {
    pub var_name: String,
    pub pattern: String,
}

/// The `replace` statement node: replace var "pattern" "replacement"
#[derive(Debug)]
pub struct ReplaceStmt {
    pub var_name: String,
    pub pattern: String,
    pub replacement: String,
}

/// The `linecount` statement node.
#[derive(Debug)]
pub struct LineCountStmt {
    pub var_name: String,
}

/// The `copy` statement node: copy "source" "destination"
#[derive(Debug)]
pub struct CopyStmt {
    pub source: String,
    pub destination: String,
}

/// The `move` statement node: move "source" "destination"
#[derive(Debug)]
pub struct MoveStmt {
    pub source: String,
    pub destination: String,
}

/// The `remove` statement node: remove "filename"
#[derive(Debug)]
pub struct RemoveStmt {
    pub filename: String,
}

/// The `rename` statement node: rename var "newfilename"
#[derive(Debug)]
pub struct RenameStmt {
    pub var_name: String,
    pub new_filename: String,
}

/// The `listdir` statement node.
#[derive(Debug)]
pub struct ListDirStmt {
    pub path: String,
}

/// The `dumpenv` statement node.
#[derive(Debug)]
pub struct DumpEnvStmt;

/// The `help` statement node.
#[derive(Debug)]
pub struct HelpStmt;

/// The `exit` statement node.
#[derive(Debug)]
pub struct ExitStmt {}

} // verus!
