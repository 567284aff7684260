//! The Parser converts a sequence of tokens into an Abstract Syntax Tree.
//!
//! It is a recursive-descent parser over the fixed grammar of the language:
//! each statement is recognised by its leading keyword and then requires a
//! fixed run of identifier, string and keyword tokens; every statement must
//! be closed by an end-of-statement token or the end of the input. What
//! `parse` returns is pinned down by the specification function
//! `spec_parse`.

use vstd::prelude::*;
use vstd::string::StrSliceExecFns;
use vstd::string::StringExecFns;

use crate::ast::{
    AppendStmt,
    AST,
    CloseStmt,
    CopyStmt,
    DumpEnvStmt,
    ExitStmt,
    HelpStmt,
    LineCountStmt,
    ListDirStmt,
    MoveStmt,
    OpenStmt,
    ReadStmt,
    RemoveStmt,
    RenameStmt,
    ReplaceStmt,
    SearchStmt,
    ShowStmt,
    Statement,
    StmtModel,
    TruncateStmt,
    WriteStmt,
};
use crate::errors::ParseError;
use crate::tokens::{
    same_kind,
    spec_clone_with_value_from,
    KindModel,
    Token,
    TokenKind,
};
use crate::utils::{dec_digits, usize_to_string};

verus! {

// ---------------------------------------------------------------------------
// Rendering token kinds for diagnostics
// ---------------------------------------------------------------------------

/// How a token kind is named in parse error messages. Identifier and string
/// tokens show their text between quotes.
pub open spec fn kind_debug(k: KindModel) -> Seq<char> {
    match k {
        KindModel::Open => "Open"@,
        KindModel::Read => "Read"@,
        KindModel::Write => "Write"@,
        KindModel::Append => "Append"@,
        KindModel::Close => "Close"@,
        KindModel::Show => "Show"@,
        KindModel::Exit => "Exit"@,
        KindModel::As => "As"@,
        KindModel::Truncate => "Truncate"@,
        KindModel::Search => "Search"@,
        KindModel::Replace => "Replace"@,
        KindModel::LineCount => "LineCount"@,
        KindModel::Copy => "Copy"@,
        KindModel::Move => "Move"@,
        KindModel::Remove => "Remove"@,
        KindModel::Rename => "Rename"@,
        KindModel::ListDir => "ListDir"@,
        KindModel::DumpEnv => "DumpEnv"@,
        KindModel::Help => "Help"@,
        KindModel::Identifier(s) => "Identifier(\""@ + s + "\")"@,
        KindModel::StringLit(s) => "String(\""@ + s + "\")"@,
        KindModel::EndOfStatement => "EndOfStatement"@,
    }
}

/// Render a token kind for a diagnostic.
pub fn kind_debug_string(k: &TokenKind) -> (r: String)
    ensures
        r@ == kind_debug(k@),
{
    match k {
        TokenKind::Open => "Open".to_owned(),
        TokenKind::Read => "Read".to_owned(),
        TokenKind::Write => "Write".to_owned(),
        TokenKind::Append => "Append".to_owned(),
        TokenKind::Close => "Close".to_owned(),
        TokenKind::Show => "Show".to_owned(),
        TokenKind::Exit => "Exit".to_owned(),
        TokenKind::As => "As".to_owned(),
        TokenKind::Truncate => "Truncate".to_owned(),
        TokenKind::Search => "Search".to_owned(),
        TokenKind::Replace => "Replace".to_owned(),
        TokenKind::LineCount => "LineCount".to_owned(),
        TokenKind::Copy => "Copy".to_owned(),
        TokenKind::Move => "Move".to_owned(),
        TokenKind::Remove => "Remove".to_owned(),
        TokenKind::Rename => "Rename".to_owned(),
        TokenKind::ListDir => "ListDir".to_owned(),
        TokenKind::DumpEnv => "DumpEnv".to_owned(),
        TokenKind::Help => "Help".to_owned(),
        TokenKind::Identifier(s) => {
            let mut m: String = String::new();
            m.append("Identifier(\"");
            m.append(s.as_str());
            m.append("\")");
            proof {
                assert(m@ =~= kind_debug(k@));
            }
            m
        },
        TokenKind::String(s) => {
            let mut m: String = String::new();
            m.append("String(\"");
            m.append(s.as_str());
            m.append("\")");
            proof {
                assert(m@ =~= kind_debug(k@));
            }
            m
        },
        TokenKind::EndOfStatement => "EndOfStatement".to_owned(),
    }
}

// ---------------------------------------------------------------------------
// The grammar at the specification level
// ---------------------------------------------------------------------------

/// One expected payload token: its text, or the error message.
pub ghost enum StrStep {
    Got(Seq<char>),
    Stuck(Seq<char>),
}

/// One expected keyword token: the taken kind, or the error message.
pub ghost enum KindStep {
    Took(KindModel),
    Stuck(Seq<char>),
}

/// One parsed statement: the statement and the next token index, or the
/// error message.
pub ghost enum StmtStep {
    Step(StmtModel, int),
    Stuck(Seq<char>),
}

/// What parsing yields: the statements, or the message of the first parse
/// error.
pub ghost enum ParseOut {
    Stmts(Seq<StmtModel>),
    Fail(Seq<char>),
}

/// The string token expected at `j`, with the message `m` on failure.
pub open spec fn spec_expect_string(ks: Seq<KindModel>, j: int, m: Seq<char>) -> StrStep {
    if j >= ks.len() {
        StrStep::Stuck(m)
    } else {
        match ks[j] {
            KindModel::StringLit(s) => StrStep::Got(s),
            _ => StrStep::Stuck(m + ": got "@ + kind_debug(ks[j])),
        }
    }
}

/// The identifier token expected at `j`, with the message `m` on failure.
pub open spec fn spec_expect_ident(ks: Seq<KindModel>, j: int, m: Seq<char>) -> StrStep {
    if j >= ks.len() {
        StrStep::Stuck(m)
    } else {
        match ks[j] {
            KindModel::Identifier(s) => StrStep::Got(s),
            _ => StrStep::Stuck(m + ": got "@ + kind_debug(ks[j])),
        }
    }
}

/// The keyword token expected at `j`, with the message `m` on failure.
pub open spec fn spec_expect_kind(
    ks: Seq<KindModel>,
    j: int,
    expected: KindModel,
    m: Seq<char>,
) -> KindStep {
    if j >= ks.len() {
        KindStep::Stuck(m)
    } else if same_kind(ks[j], expected) {
        KindStep::Took(spec_clone_with_value_from(expected, ks[j]))
    } else {
        KindStep::Stuck(m + ": got "@ + kind_debug(ks[j]))
    }
}

/// The message for a token no statement can begin with.
pub open spec fn msg_unexpected_token(k: KindModel, pos: int) -> Seq<char> {
    "Unexpected token "@ + kind_debug(k) + " at position "@ + dec_digits(pos as nat)
}

/// The message for a statement not closed by an end-of-statement token.
pub open spec fn msg_expected_eos(pos: int, k: KindModel) -> Seq<char> {
    "Expected end of statement at position "@ + dec_digits(pos as nat) + " but found "@
        + kind_debug(k)
}

/// One statement parsed at token index `i`, by the grammar table:
/// `open STRING as IDENT`; `read/show/close/truncate/linecount IDENT`;
/// `write/append IDENT STRING`; `search IDENT STRING`;
/// `replace IDENT STRING STRING`; `rename IDENT STRING`;
/// `copy/move STRING STRING`; `remove/listdir STRING`;
/// `dumpenv/help/exit` with no arguments.
pub open spec fn spec_parse_stmt(ks: Seq<KindModel>, i: int) -> StmtStep {
    match ks[i] {
        KindModel::Open => match spec_expect_string(
            ks,
            i + 1,
            "Expected filename string after 'open'"@,
        ) {
            StrStep::Stuck(m) => StmtStep::Stuck(m),
            StrStep::Got(filename) => match spec_expect_kind(
                ks,
                i + 2,
                KindModel::As,
                "Expected 'as' after filename in open statement"@,
            ) {
                KindStep::Stuck(m) => StmtStep::Stuck(m),
                KindStep::Took(_) => match spec_expect_ident(
                    ks,
                    i + 3,
                    "Expected variable name after 'as'"@,
                ) {
                    StrStep::Stuck(m) => StmtStep::Stuck(m),
                    StrStep::Got(v) => StmtStep::Step(
                        StmtModel::Open { filename, var_name: v },
                        i + 4,
                    ),
                },
            },
        },
        KindModel::Read => match spec_expect_ident(
            ks,
            i + 1,
            "Expected variable name after 'read'"@,
        ) {
            StrStep::Stuck(m) => StmtStep::Stuck(m),
            StrStep::Got(v) => StmtStep::Step(StmtModel::Read { var_name: v }, i + 2),
        },
        KindModel::Write => match spec_expect_ident(
            ks,
            i + 1,
            "Expected variable name after 'write'"@,
        ) {
            StrStep::Stuck(m) => StmtStep::Stuck(m),
            StrStep::Got(v) => match spec_expect_string(
                ks,
                i + 2,
                "Expected string after variable in 'write'"@,
            ) {
                StrStep::Stuck(m) => StmtStep::Stuck(m),
                StrStep::Got(t) => StmtStep::Step(
                    StmtModel::Write { var_name: v, text: t },
                    i + 3,
                ),
            },
        },
        KindModel::Append => match spec_expect_ident(
            ks,
            i + 1,
            "Expected variable name after 'append'"@,
        ) {
            StrStep::Stuck(m) => StmtStep::Stuck(m),
            StrStep::Got(v) => match spec_expect_string(
                ks,
                i + 2,
                "Expected string after variable in 'append'"@,
            ) {
                StrStep::Stuck(m) => StmtStep::Stuck(m),
                StrStep::Got(t) => StmtStep::Step(
                    StmtModel::Append { var_name: v, text: t },
                    i + 3,
                ),
            },
        },
        KindModel::Show => match spec_expect_ident(
            ks,
            i + 1,
            "Expected variable name after 'show'"@,
        ) {
            StrStep::Stuck(m) => StmtStep::Stuck(m),
            StrStep::Got(v) => StmtStep::Step(StmtModel::Show { var_name: v }, i + 2),
        },
        KindModel::Close => match spec_expect_ident(
            ks,
            i + 1,
            "Expected variable name after 'close'"@,
        ) {
            StrStep::Stuck(m) => StmtStep::Stuck(m),
            StrStep::Got(v) => StmtStep::Step(StmtModel::Close { var_name: v }, i + 2),
        },
        KindModel::Truncate => match spec_expect_ident(
            ks,
            i + 1,
            "Expected variable name after 'truncate'"@,
        ) {
            StrStep::Stuck(m) => StmtStep::Stuck(m),
            StrStep::Got(v) => StmtStep::Step(StmtModel::Truncate { var_name: v }, i + 2),
        },
        KindModel::Search => match spec_expect_ident(
            ks,
            i + 1,
            "Expected variable name after 'search'"@,
        ) {
            StrStep::Stuck(m) => StmtStep::Stuck(m),
            StrStep::Got(v) => match spec_expect_string(
                ks,
                i + 2,
                "Expected pattern string after variable in 'search'"@,
            ) {
                StrStep::Stuck(m) => StmtStep::Stuck(m),
                StrStep::Got(p) => StmtStep::Step(
                    StmtModel::Search { var_name: v, pattern: p },
                    i + 3,
                ),
            },
        },
        KindModel::Replace => match spec_expect_ident(
            ks,
            i + 1,
            "Expected variable name after 'replace'"@,
        ) {
            StrStep::Stuck(m) => StmtStep::Stuck(m),
            StrStep::Got(v) => match spec_expect_string(
                ks,
                i + 2,
                "Expected pattern string after variable in 'replace'"@,
            ) {
                StrStep::Stuck(m) => StmtStep::Stuck(m),
                StrStep::Got(p) => match spec_expect_string(
                    ks,
                    i + 3,
                    "Expected replacement string after pattern in 'replace'"@,
                ) {
                    StrStep::Stuck(m) => StmtStep::Stuck(m),
                    StrStep::Got(rp) => StmtStep::Step(
                        StmtModel::Replace { var_name: v, pattern: p, replacement: rp },
                        i + 4,
                    ),
                },
            },
        },
        KindModel::LineCount => match spec_expect_ident(
            ks,
            i + 1,
            "Expected variable name after 'linecount'"@,
        ) {
            StrStep::Stuck(m) => StmtStep::Stuck(m),
            StrStep::Got(v) => StmtStep::Step(StmtModel::LineCount { var_name: v }, i + 2),
        },
        KindModel::Copy => match spec_expect_string(
            ks,
            i + 1,
            "Expected source filename after 'copy'"@,
        ) {
            StrStep::Stuck(m) => StmtStep::Stuck(m),
            StrStep::Got(src) => match spec_expect_string(
                ks,
                i + 2,
                "Expected destination filename after source in 'copy'"@,
            ) {
                StrStep::Stuck(m) => StmtStep::Stuck(m),
                StrStep::Got(dst) => StmtStep::Step(
                    StmtModel::Copy { source: src, destination: dst },
                    i + 3,
                ),
            },
        },
        KindModel::Move => match spec_expect_string(
            ks,
            i + 1,
            "Expected source filename after 'move'"@,
        ) {
            StrStep::Stuck(m) => StmtStep::Stuck(m),
            StrStep::Got(src) => match spec_expect_string(
                ks,
                i + 2,
                "Expected destination filename after source in 'move'"@,
            ) {
                StrStep::Stuck(m) => StmtStep::Stuck(m),
                StrStep::Got(dst) => StmtStep::Step(
                    StmtModel::Move { source: src, destination: dst },
                    i + 3,
                ),
            },
        },
        KindModel::Remove => match spec_expect_string(
            ks,
            i + 1,
            "Expected filename after 'remove'"@,
        ) {
            StrStep::Stuck(m) => StmtStep::Stuck(m),
            StrStep::Got(f) => StmtStep::Step(StmtModel::Remove { filename: f }, i + 2),
        },
        KindModel::Rename => match spec_expect_ident(
            ks,
            i + 1,
            "Expected variable name after 'rename'"@,
        ) {
            StrStep::Stuck(m) => StmtStep::Stuck(m),
            StrStep::Got(v) => match spec_expect_string(
                ks,
                i + 2,
                "Expected new filename after variable in 'rename'"@,
            ) {
                StrStep::Stuck(m) => StmtStep::Stuck(m),
                StrStep::Got(nf) => StmtStep::Step(
                    StmtModel::Rename { var_name: v, new_filename: nf },
                    i + 3,
                ),
            },
        },
        KindModel::ListDir => match spec_expect_string(
            ks,
            i + 1,
            "Expected directory path after 'listdir'"@,
        ) {
            StrStep::Stuck(m) => StmtStep::Stuck(m),
            StrStep::Got(p) => StmtStep::Step(StmtModel::ListDir { path: p }, i + 2),
        },
        KindModel::DumpEnv => StmtStep::Step(StmtModel::DumpEnv, i + 1),
        KindModel::Help => StmtStep::Step(StmtModel::Help, i + 1),
        KindModel::Exit => StmtStep::Step(StmtModel::Exit, i + 1),
        _ => StmtStep::Stuck(msg_unexpected_token(ks[i], i)),
    }
}

/// A parsed statement always consumes at least one token and never runs past
/// the end.
pub proof fn lemma_parse_stmt_bounds(ks: Seq<KindModel>, i: int)
    requires
        0 <= i < ks.len(),
    ensures
        spec_parse_stmt(ks, i) matches StmtStep::Step(_, j) ==> i < j <= ks.len(),
{
    match ks[i] {
        KindModel::Open => {},
        KindModel::Read => {},
        KindModel::Write => {},
        KindModel::Append => {},
        KindModel::Show => {},
        KindModel::Close => {},
        KindModel::Truncate => {},
        KindModel::Search => {},
        KindModel::Replace => {},
        KindModel::LineCount => {},
        KindModel::Copy => {},
        KindModel::Move => {},
        KindModel::Remove => {},
        KindModel::Rename => {},
        KindModel::ListDir => {},
        KindModel::DumpEnv => {},
        KindModel::Help => {},
        KindModel::Exit => {},
        _ => {},
    }
}

/// Prefix one statement onto a parsing outcome.
pub open spec fn prepend_stmt(st: StmtModel, o: ParseOut) -> ParseOut {
    match o {
        ParseOut::Stmts(sts) => ParseOut::Stmts(seq![st] + sts),
        ParseOut::Fail(m) => ParseOut::Fail(m),
    }
}

/// Prefix finished statements onto a parsing outcome.
pub open spec fn prepend_stmts(p: Seq<StmtModel>, o: ParseOut) -> ParseOut {
    match o {
        ParseOut::Stmts(sts) => ParseOut::Stmts(p + sts),
        ParseOut::Fail(m) => ParseOut::Fail(m),
    }
}

/// Parsing from token index `i` on. Stray end-of-statement tokens between
/// statements are consumed silently; each parsed statement must be followed
/// by an end-of-statement token or the end of the input.
pub open spec fn spec_parse_from(ks: Seq<KindModel>, i: int) -> ParseOut
    decreases ks.len() - i,
    when 0 <= i <= ks.len()
    via spec_parse_from_decreases
{
    if i >= ks.len() {
        ParseOut::Stmts(Seq::empty())
    } else if ks[i] is EndOfStatement {
        spec_parse_from(ks, i + 1)
    } else {
        match spec_parse_stmt(ks, i) {
            StmtStep::Stuck(m) => ParseOut::Fail(m),
            StmtStep::Step(st, j) => if j < ks.len() && !(ks[j] is EndOfStatement) {
                ParseOut::Fail(msg_expected_eos(j, ks[j]))
            } else if j < ks.len() {
                prepend_stmt(st, spec_parse_from(ks, j + 1))
            } else {
                prepend_stmt(st, spec_parse_from(ks, j))
            },
        }
    }
}

#[via_fn]
proof fn spec_parse_from_decreases(ks: Seq<KindModel>, i: int) {
    if 0 <= i < ks.len() {
        lemma_parse_stmt_bounds(ks, i);
    }
}

/// The whole token sequence parsed.
pub open spec fn spec_parse(ks: Seq<KindModel>) -> ParseOut {
    spec_parse_from(ks, 0)
}

/// The kinds of a token sequence.
pub open spec fn kinds_of_tokens(ts: Seq<Token>) -> Seq<KindModel> {
    ts.map_values(|t: Token| t@.kind)
}

/// How an executable result realises a parsing outcome.
pub open spec fn matches_parse_out(o: ParseOut, r: Result<AST, ParseError>) -> bool {
    match o {
        ParseOut::Stmts(sts) => r is Ok && (r->Ok_0)@ == sts,
        ParseOut::Fail(m) => r is Err && (r->Err_0)@ == m,
    }
}

/// How an executable statement result realises one grammar step.
pub open spec fn matches_stmt_step(
    step: StmtStep,
    r: Result<Statement, ParseError>,
    newpos: int,
) -> bool {
    match step {
        StmtStep::Step(st, j) => r is Ok && (r->Ok_0)@ == st && newpos == j,
        StmtStep::Stuck(m) => r is Err && (r->Err_0)@ == m,
    }
}

// ---------------------------------------------------------------------------
// The executable parser
// ---------------------------------------------------------------------------

pub struct Parser {
    tokens: Vec<Token>,
    pos: usize,
    length: usize,
}

impl Parser {
    /// The kinds of the tokens under the parser.
    pub closed spec fn kinds(&self) -> Seq<KindModel> {
        kinds_of_tokens(self.tokens@)
    }

    /// A freshly created parser, still standing at the beginning.
    pub closed spec fn fresh(&self) -> bool {
        self.pos == 0
    }

    spec fn wf(&self) -> bool {
        self.length == self.tokens@.len() && self.pos <= self.length
    }

    /// Create a new parser with a list of tokens.
    pub fn new(tokens: Vec<Token>) -> (r: Self)
        ensures
            r.fresh(),
            r.kinds() == kinds_of_tokens(tokens@),
    {
        Self { tokens, pos: 0, length: 0 }
    }

    fn is_at_end(&self) -> (r: bool)
        requires
            self.wf(),
        ensures
            r == (self.pos == self.length),
    {
        self.pos >= self.length
    }

    fn peek_token(&self) -> (r: &Token)
        requires
            self.wf(),
            self.pos < self.length,
        ensures
            r@ == self.tokens@[self.pos as int]@,
            r@.kind == self.kinds()[self.pos as int],
    {
        &self.tokens[self.pos]
    }

    fn current_position(&self) -> (r: usize)
        ensures
            r == self.pos,
    {
        self.pos
    }

    fn advance(&mut self)
        requires
            old(self).wf(),
            old(self).pos < old(self).length,
        ensures
            final(self).wf(),
            final(self).tokens@ == old(self).tokens@,
            final(self).length == old(self).length,
            final(self).pos == old(self).pos + 1,
    {
        self.pos = self.pos + 1;
    }

    fn match_token(&mut self, kind: &TokenKind) -> (r: bool)
        requires
            old(self).wf(),
        ensures
            final(self).wf(),
            final(self).tokens@ == old(self).tokens@,
            final(self).length == old(self).length,
            r == (old(self).pos < old(self).length && same_kind(
                old(self).kinds()[old(self).pos as int],
                kind@,
            )),
            r ==> final(self).pos == old(self).pos + 1,
            !r ==> final(self).pos == old(self).pos,
    {
        if self.is_at_end() {
            return false;
        }
        let matched: bool = self.peek_token().kind.eq_ignore_value(kind);
        if matched {
            self.advance();
            true
        } else {
            false
        }
    }

    fn check_end_of_statement(&self) -> (r: bool)
        requires
            self.wf(),
        ensures
            r == (self.pos == self.length || self.kinds()[self.pos as int]
                is EndOfStatement),
    {
        if self.is_at_end() {
            return true;
        }
        match &self.peek_token().kind {
            TokenKind::EndOfStatement => true,
            _ => false,
        }
    }

    fn consume_end_of_statement(&mut self) -> (r: Result<(), ParseError>)
        requires
            old(self).wf(),
        ensures
            final(self).wf(),
            final(self).tokens@ == old(self).tokens@,
            final(self).length == old(self).length,
            old(self).pos == old(self).length ==> r is Ok && final(self).pos == old(self).pos,
            old(self).pos < old(self).length && old(self).kinds()[old(self).pos as int]
                is EndOfStatement ==> r is Ok && final(self).pos == old(self).pos + 1,
            old(self).pos < old(self).length && !(old(self).kinds()[old(self).pos as int]
                is EndOfStatement) ==> r is Err && (r->Err_0)@ == "Expected end of statement"@
                && final(self).pos == old(self).pos,
    {
        if self.check_end_of_statement() {
            if self.is_at_end() {
                return Ok(());
            }
            self.advance();
            Ok(())
        } else {
            Err(ParseError::new("Expected end of statement".to_owned()))
        }
    }

    fn consume_expect_string(&mut self, err_msg: &str) -> (r: Result<String, ParseError>)
        requires
            old(self).wf(),
        ensures
            final(self).wf(),
            final(self).tokens@ == old(self).tokens@,
            final(self).length == old(self).length,
            ({
                match spec_expect_string(old(self).kinds(), old(self).pos as int, err_msg@) {
                    StrStep::Got(s) => r is Ok && (r->Ok_0)@ == s && final(self).pos == old(
                        self,
                    ).pos + 1,
                    StrStep::Stuck(m) => r is Err && (r->Err_0)@ == m,
                }
            }),
    {
        if self.is_at_end() {
            return Err(ParseError::new(err_msg.to_owned()));
        }
        let tk: TokenKind = {
            let t = self.peek_token();
            t.kind.clone_with_value_from(&t.kind)
        };
        self.advance();
        match tk {
            TokenKind::String(s) => Ok(s),
            k => {
                let mut m: String = String::new();
                m.append(err_msg);
                m.append(": got ");
                let d: String = kind_debug_string(&k);
                m.append(d.as_str());
                proof {
                    assert(m@ =~= err_msg@ + ": got "@ + kind_debug(k@));
                }
                Err(ParseError::new(m))
            },
        }
    }

    fn consume_expect_identifier(&mut self, err_msg: &str) -> (r: Result<String, ParseError>)
        requires
            old(self).wf(),
        ensures
            final(self).wf(),
            final(self).tokens@ == old(self).tokens@,
            final(self).length == old(self).length,
            ({
                match spec_expect_ident(old(self).kinds(), old(self).pos as int, err_msg@) {
                    StrStep::Got(s) => r is Ok && (r->Ok_0)@ == s && final(self).pos == old(
                        self,
                    ).pos + 1,
                    StrStep::Stuck(m) => r is Err && (r->Err_0)@ == m,
                }
            }),
    {
        if self.is_at_end() {
            return Err(ParseError::new(err_msg.to_owned()));
        }
        let tk: TokenKind = {
            let t = self.peek_token();
            t.kind.clone_with_value_from(&t.kind)
        };
        self.advance();
        match tk {
            TokenKind::Identifier(s) => Ok(s),
            k => {
                let mut m: String = String::new();
                m.append(err_msg);
                m.append(": got ");
                let d: String = kind_debug_string(&k);
                m.append(d.as_str());
                proof {
                    assert(m@ =~= err_msg@ + ": got "@ + kind_debug(k@));
                }
                Err(ParseError::new(m))
            },
        }
    }

    fn consume_expect_token(&mut self, expected: TokenKind, err_msg: &str) -> (r: Result<
        TokenKind,
        ParseError,
    >)
        requires
            old(self).wf(),
        ensures
            final(self).wf(),
            final(self).tokens@ == old(self).tokens@,
            final(self).length == old(self).length,
            ({
                match spec_expect_kind(
                    old(self).kinds(),
                    old(self).pos as int,
                    expected@,
                    err_msg@,
                ) {
                    KindStep::Took(k) => r is Ok && (r->Ok_0)@ == k && final(self).pos == old(
                        self,
                    ).pos + 1,
                    KindStep::Stuck(m) => r is Err && (r->Err_0)@ == m,
                }
            }),
    {
        if self.is_at_end() {
            return Err(ParseError::new(err_msg.to_owned()));
        }
        let tk: TokenKind = {
            let t = self.peek_token();
            t.kind.clone_with_value_from(&t.kind)
        };
        self.advance();
        if tk.eq_ignore_value(&expected) {
            Ok(expected.clone_with_value_from(&tk))
        } else {
            let mut m: String = String::new();
            m.append(err_msg);
            m.append(": got ");
            let d: String = kind_debug_string(&tk);
            m.append(d.as_str());
            proof {
                assert(m@ =~= err_msg@ + ": got "@ + kind_debug(tk@));
            }
            Err(ParseError::new(m))
        }
    }

    fn parse_statement(&mut self) -> (r: Result<Statement, ParseError>)
        requires
            old(self).wf(),
            old(self).pos < old(self).length,
        ensures
            final(self).wf(),
            final(self).tokens@ == old(self).tokens@,
            final(self).length == old(self).length,
            matches_stmt_step(
                spec_parse_stmt(old(self).kinds(), old(self).pos as int),
                r,
                final(self).pos as int,
            ),
    {
        if self.match_token(&TokenKind::Open) {
            let filename: String = self.consume_expect_string(
                "Expected filename string after 'open'",
            )?;
            self.consume_expect_token(
                TokenKind::As,
                "Expected 'as' after filename in open statement",
            )?;
            let var: String = self.consume_expect_identifier("Expected variable name after 'as'")?;
            return Ok(Statement::Open(OpenStmt { filename, var_name: var }));
        }
        if self.match_token(&TokenKind::Read) {
            let var: String = self.consume_expect_identifier(
                "Expected variable name after 'read'",
            )?;
            return Ok(Statement::Read(ReadStmt { var_name: var }));
        }
        if self.match_token(&TokenKind::Write) {
            let var: String = self.consume_expect_identifier(
                "Expected variable name after 'write'",
            )?;
            let text: String = self.consume_expect_string(
                "Expected string after variable in 'write'",
            )?;
            return Ok(Statement::Write(WriteStmt { var_name: var, text }));
        }
        if self.match_token(&TokenKind::Append) {
            let var: String = self.consume_expect_identifier(
                "Expected variable name after 'append'",
            )?;
            let text: String = self.consume_expect_string(
                "Expected string after variable in 'append'",
            )?;
            return Ok(Statement::Append(AppendStmt { var_name: var, text }));
        }
        if self.match_token(&TokenKind::Show) {
            let var: String = self.consume_expect_identifier(
                "Expected variable name after 'show'",
            )?;
            return Ok(Statement::Show(ShowStmt { var_name: var }));
        }
        if self.match_token(&TokenKind::Close) {
            let var: String = self.consume_expect_identifier(
                "Expected variable name after 'close'",
            )?;
            return Ok(Statement::Close(CloseStmt { var_name: var }));
        }
        if self.match_token(&TokenKind::Truncate) {
            let var: String = self.consume_expect_identifier(
                "Expected variable name after 'truncate'",
            )?;
            return Ok(Statement::Truncate(TruncateStmt { var_name: var }));
        }
        if self.match_token(&TokenKind::Search) {
            let var: String = self.consume_expect_identifier(
                "Expected variable name after 'search'",
            )?;
            let pattern: String = self.consume_expect_string(
                "Expected pattern string after variable in 'search'",
            )?;
            return Ok(Statement::Search(SearchStmt { var_name: var, pattern }));
        }
        if self.match_token(&TokenKind::Replace) {
            let var: String = self.consume_expect_identifier(
                "Expected variable name after 'replace'",
            )?;
            let pattern: String = self.consume_expect_string(
                "Expected pattern string after variable in 'replace'",
            )?;
            let replacement: String = self.consume_expect_string(
                "Expected replacement string after pattern in 'replace'",
            )?;
            return Ok(Statement::Replace(ReplaceStmt { var_name: var, pattern, replacement }));
        }
        if self.match_token(&TokenKind::LineCount) {
            let var: String = self.consume_expect_identifier(
                "Expected variable name after 'linecount'",
            )?;
            return Ok(Statement::LineCount(LineCountStmt { var_name: var }));
        }
        if self.match_token(&TokenKind::Copy) {
            let src: String = self.consume_expect_string("Expected source filename after 'copy'")?;
            let dst: String = self.consume_expect_string(
                "Expected destination filename after source in 'copy'",
            )?;
            return Ok(Statement::Copy(CopyStmt { source: src, destination: dst }));
        }
        if self.match_token(&TokenKind::Move) {
            let src: String = self.consume_expect_string("Expected source filename after 'move'")?;
            let dst: String = self.consume_expect_string(
                "Expected destination filename after source in 'move'",
            )?;
            return Ok(Statement::Move(MoveStmt { source: src, destination: dst }));
        }
        if self.match_token(&TokenKind::Remove) {
            let fname: String = self.consume_expect_string("Expected filename after 'remove'")?;
            return Ok(Statement::Remove(RemoveStmt { filename: fname }));
        }
        if self.match_token(&TokenKind::Rename) {
            let var: String = self.consume_expect_identifier(
                "Expected variable name after 'rename'",
            )?;
            let new_fname: String = self.consume_expect_string(
                "Expected new filename after variable in 'rename'",
            )?;
            return Ok(Statement::Rename(RenameStmt { var_name: var, new_filename: new_fname }));
        }
        if self.match_token(&TokenKind::ListDir) {
            let path: String = self.consume_expect_string(
                "Expected directory path after 'listdir'",
            )?;
            return Ok(Statement::ListDir(ListDirStmt { path }));
        }
        if self.match_token(&TokenKind::DumpEnv) {
            return Ok(Statement::DumpEnv(DumpEnvStmt {}));
        }
        if self.match_token(&TokenKind::Help) {
            return Ok(Statement::Help(HelpStmt {}));
        }
        if self.match_token(&TokenKind::Exit) {
            return Ok(Statement::Exit(ExitStmt {}));
        }
        let k: TokenKind = {
            let t = self.peek_token();
            t.kind.clone_with_value_from(&t.kind)
        };
        let p: usize = self.current_position();
        let mut m: String = String::new();
        m.append("Unexpected token ");
        let d: String = kind_debug_string(&k);
        m.append(d.as_str());
        m.append(" at position ");
        let n: String = usize_to_string(p);
        m.append(n.as_str());
        proof {
            assert(m@ =~= msg_unexpected_token(
                old(self).kinds()[old(self).pos as int],
                old(self).pos as int,
            ));
        }
        Err(ParseError::new(m))
    }

    /// Parse the entire token stream into an AST, or fail on the first parse
    /// error.
    pub fn parse(&mut self) -> (r: Result<AST, ParseError>)
        requires
            old(self).fresh(),
        ensures
            matches_parse_out(spec_parse(old(self).kinds()), r),
    {
        self.length = self.tokens.len();
        let ghost ks = self.kinds();
        let mut statements: Vec<Statement> = Vec::new();
        proof {
            assert(statements@.map_values(|st: Statement| st@) + Seq::<StmtModel>::empty()
                =~= Seq::<StmtModel>::empty());
            match spec_parse_from(ks, 0) {
                ParseOut::Stmts(sts) => {
                    assert(statements@.map_values(|st: Statement| st@) + sts =~= sts);
                },
                ParseOut::Fail(_) => {},
            }
        }
        while !self.is_at_end()
            invariant
                self.wf(),
                self.kinds() == ks,
                old(self).kinds() == ks,
                spec_parse(ks) == prepend_stmts(
                    statements@.map_values(|st: Statement| st@),
                    spec_parse_from(ks, self.pos as int),
                ),
            ensures
                self.wf(),
                self.kinds() == ks,
                old(self).kinds() == ks,
                self.pos == self.length,
                spec_parse(ks) == prepend_stmts(
                    statements@.map_values(|st: Statement| st@),
                    spec_parse_from(ks, self.pos as int),
                ),
            decreases self.length - self.pos,
        {
            let ghost here = self.pos as int;
            if self.check_end_of_statement() {
                let c: Result<(), ParseError> = self.consume_end_of_statement();
                continue ;
            }
            let stmt: Statement = match self.parse_statement() {
                Ok(st) => st,
                Err(e) => {
                    proof {
                        assert(spec_parse_from(ks, here) == ParseOut::Fail(e@));
                    }
                    return Err(e);
                },
            };
            let ghost j = self.pos as int;
            proof {
                lemma_parse_stmt_bounds(ks, here);
            }
            let ghost pre_stmts = statements@;
            statements.push(stmt);
            if !self.is_at_end() && !self.check_end_of_statement() {
                let k: TokenKind = {
                    let t = self.peek_token();
                    t.kind.clone_with_value_from(&t.kind)
                };
                let p: usize = self.current_position();
                let mut m: String = String::new();
                m.append("Expected end of statement at position ");
                let n: String = usize_to_string(p);
                m.append(n.as_str());
                m.append(" but found ");
                let d: String = kind_debug_string(&k);
                m.append(d.as_str());
                proof {
                    assert(m@ =~= msg_expected_eos(j, ks[j]));
                    assert(spec_parse_from(ks, here) == ParseOut::Fail(msg_expected_eos(j, ks[j])));
                }
                return Err(ParseError::new(m));
            }
            let c: Result<(), ParseError> = self.consume_end_of_statement();
            proof {
                let pv = pre_stmts.map_values(|st: Statement| st@);
                let qv = statements@.map_values(|st: Statement| st@);
                assert(qv =~= pv.push(stmt@));
                assert(spec_parse_from(ks, here) == prepend_stmt(
                    stmt@,
                    spec_parse_from(ks, self.pos as int),
                ));
                match spec_parse_from(ks, self.pos as int) {
                    ParseOut::Stmts(sts) => {
                        assert(pv + (seq![stmt@] + sts) =~= qv + sts);
                    },
                    ParseOut::Fail(_) => {},
                }
            }
        }
        proof {
            assert(spec_parse_from(ks, self.pos as int) == ParseOut::Stmts(
                Seq::<StmtModel>::empty(),
            ));
            match spec_parse(ks) {
                ParseOut::Stmts(sts) => {
                    assert(statements@.map_values(|st: Statement| st@) + Seq::<
                        StmtModel,
                    >::empty() =~= statements@.map_values(|st: Statement| st@));
                },
                ParseOut::Fail(_) => {},
            }
        }
        Ok(AST { statements })
    }
}

} // verus!
