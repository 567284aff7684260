//! The Token and TokenKind types used by the lexer and parser.

use vstd::prelude::*;

verus! {

/// A token consists of a kind and a position.
#[derive(Debug)]
pub struct Token {
    /// The kind of the token.
    pub kind: TokenKind,
    /// The byte position in the input stream (for error messages).
    pub pos: usize,
}

/// The shape of a token, for specifications.
pub ghost struct TokenModel {
    pub kind: KindModel,
    pub pos: int,
}

impl View for Token {
    type V = TokenModel;

    open spec fn view(&self) -> TokenModel {
        TokenModel { kind: self.kind@, pos: self.pos as int }
    }
}

impl Token {
    /// Create a new token.
    pub fn new(kind: TokenKind, pos: usize) -> (r: Self)
        ensures
            r@.kind == kind@,
            r@.pos == pos as int,
    {
        Self { kind, pos }
    }
}

/// The kind of token. Some tokens carry values (like strings or identifiers).
#[derive(Debug)]
pub enum TokenKind {
    // Keywords
    Open,
    Read,
    Write,
    Append,
    Close,
    Show,
    Exit,
    As,
    Truncate,
    Search,
    Replace,
    LineCount,
    Copy,
    Move,
    Remove,
    Rename,
    ListDir,
    DumpEnv,
    Help,
    // Values
    Identifier(String),
    String(String),
    // End of statement
    EndOfStatement,
}

/// The shape of a token kind, for specifications.
pub ghost enum KindModel {
    Open,
    Read,
    Write,
    Append,
    Close,
    Show,
    Exit,
    As,
    Truncate,
    Search,
    Replace,
    LineCount,
    Copy,
    Move,
    Remove,
    Rename,
    ListDir,
    DumpEnv,
    Help,
    Identifier(Seq<char>),
    StringLit(Seq<char>),
    EndOfStatement,
}

impl View for TokenKind {
    type V = KindModel;

    open spec fn view(&self) -> KindModel {
        match self {
            TokenKind::Open => KindModel::Open,
            TokenKind::Read => KindModel::Read,
            TokenKind::Write => KindModel::Write,
            TokenKind::Append => KindModel::Append,
            TokenKind::Close => KindModel::Close,
            TokenKind::Show => KindModel::Show,
            TokenKind::Exit => KindModel::Exit,
            TokenKind::As => KindModel::As,
            TokenKind::Truncate => KindModel::Truncate,
            TokenKind::Search => KindModel::Search,
            TokenKind::Replace => KindModel::Replace,
            TokenKind::LineCount => KindModel::LineCount,
            TokenKind::Copy => KindModel::Copy,
            TokenKind::Move => KindModel::Move,
            TokenKind::Remove => KindModel::Remove,
            TokenKind::Rename => KindModel::Rename,
            TokenKind::ListDir => KindModel::ListDir,
            TokenKind::DumpEnv => KindModel::DumpEnv,
            TokenKind::Help => KindModel::Help,
            TokenKind::Identifier(s) => KindModel::Identifier(s@),
            TokenKind::String(s) => KindModel::StringLit(s@),
            TokenKind::EndOfStatement => KindModel::EndOfStatement,
        }
    }
}

/// Whether two token kinds agree once their embedded values are ignored.
pub open spec fn same_kind(a: KindModel, b: KindModel) -> bool {
    match (a, b) {
        (KindModel::Open, KindModel::Open) => true,
        (KindModel::Read, KindModel::Read) => true,
        (KindModel::Write, KindModel::Write) => true,
        (KindModel::Append, KindModel::Append) => true,
        (KindModel::Close, KindModel::Close) => true,
        (KindModel::Show, KindModel::Show) => true,
        (KindModel::Exit, KindModel::Exit) => true,
        (KindModel::As, KindModel::As) => true,
        (KindModel::Truncate, KindModel::Truncate) => true,
        (KindModel::Search, KindModel::Search) => true,
        (KindModel::Replace, KindModel::Replace) => true,
        (KindModel::LineCount, KindModel::LineCount) => true,
        (KindModel::Copy, KindModel::Copy) => true,
        (KindModel::Move, KindModel::Move) => true,
        (KindModel::Remove, KindModel::Remove) => true,
        (KindModel::Rename, KindModel::Rename) => true,
        (KindModel::ListDir, KindModel::ListDir) => true,
        (KindModel::DumpEnv, KindModel::DumpEnv) => true,
        (KindModel::Help, KindModel::Help) => true,
        (KindModel::Identifier(_), KindModel::Identifier(_)) => true,
        (KindModel::StringLit(_), KindModel::StringLit(_)) => true,
        (KindModel::EndOfStatement, KindModel::EndOfStatement) => true,
        _ => false,
    }
}

/// Keep a kind's identity but take the embedded value from `b` where both
/// carry one of the same shape.
pub open spec fn spec_clone_with_value_from(a: KindModel, b: KindModel) -> KindModel {
    match a {
        KindModel::Identifier(_) => match b {
            KindModel::Identifier(t) => KindModel::Identifier(t),
            _ => a,
        },
        KindModel::StringLit(_) => match b {
            KindModel::StringLit(t) => KindModel::StringLit(t),
            _ => a,
        },
        _ => a,
    }
}

impl TokenKind {
    /// Check if two TokenKinds are equal ignoring the embedded values.
    pub fn eq_ignore_value(&self, other: &TokenKind) -> (r: bool)
        ensures
            r == same_kind(self@, other@),
    {
        match (self, other) {
            (TokenKind::Open, TokenKind::Open) => true,
            (TokenKind::Read, TokenKind::Read) => true,
            (TokenKind::Write, TokenKind::Write) => true,
            (TokenKind::Append, TokenKind::Append) => true,
            (TokenKind::Close, TokenKind::Close) => true,
            (TokenKind::Show, TokenKind::Show) => true,
            (TokenKind::Exit, TokenKind::Exit) => true,
            (TokenKind::As, TokenKind::As) => true,
            (TokenKind::Truncate, TokenKind::Truncate) => true,
            (TokenKind::Search, TokenKind::Search) => true,
            (TokenKind::Replace, TokenKind::Replace) => true,
            (TokenKind::LineCount, TokenKind::LineCount) => true,
            (TokenKind::Copy, TokenKind::Copy) => true,
            (TokenKind::Move, TokenKind::Move) => true,
            (TokenKind::Remove, TokenKind::Remove) => true,
            (TokenKind::Rename, TokenKind::Rename) => true,
            (TokenKind::ListDir, TokenKind::ListDir) => true,
            (TokenKind::DumpEnv, TokenKind::DumpEnv) => true,
            (TokenKind::Help, TokenKind::Help) => true,
            (TokenKind::Identifier(_), TokenKind::Identifier(_)) => true,
            (TokenKind::String(_), TokenKind::String(_)) => true,
            (TokenKind::EndOfStatement, TokenKind::EndOfStatement) => true,
            _ => false,
        }
    }

    /// Clone a token kind, taking values from `other` if needed (for
    /// identifiers or strings).
    pub fn clone_with_value_from(&self, other: &TokenKind) -> (r: TokenKind)
        ensures
            r@ == spec_clone_with_value_from(self@, other@),
    {
        match self {
            TokenKind::Identifier(s) => match other {
                TokenKind::Identifier(t) => TokenKind::Identifier(t.clone()),
                _ => TokenKind::Identifier(s.clone()),
            },
            TokenKind::String(s) => match other {
                TokenKind::String(t) => TokenKind::String(t.clone()),
                _ => TokenKind::String(s.clone()),
            },
            TokenKind::Open => TokenKind::Open,
            TokenKind::Read => TokenKind::Read,
            TokenKind::Write => TokenKind::Write,
            TokenKind::Append => TokenKind::Append,
            TokenKind::Close => TokenKind::Close,
            TokenKind::Show => TokenKind::Show,
            TokenKind::Exit => TokenKind::Exit,
            TokenKind::As => TokenKind::As,
            TokenKind::Truncate => TokenKind::Truncate,
            TokenKind::Search => TokenKind::Search,
            TokenKind::Replace => TokenKind::Replace,
            TokenKind::LineCount => TokenKind::LineCount,
            TokenKind::Copy => TokenKind::Copy,
            TokenKind::Move => TokenKind::Move,
            TokenKind::Remove => TokenKind::Remove,
            TokenKind::Rename => TokenKind::Rename,
            TokenKind::ListDir => TokenKind::ListDir,
            TokenKind::DumpEnv => TokenKind::DumpEnv,
            TokenKind::Help => TokenKind::Help,
            TokenKind::EndOfStatement => TokenKind::EndOfStatement,
        }
    }
}

} // verus!
