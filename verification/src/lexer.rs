//! The Lexer converts raw input into tokens.
//!
//! It supports keywords:
//! open, read, write, append, show, close, exit, as, truncate, search,
//! replace, linecount, copy, move, remove, rename, listdir, dumpenv, help
//!
//! Identifiers: used for variables.
//! Strings: double-quoted strings for filenames, patterns, and text.
//! EndOfStatement: newline or semicolon.
//! Comments: from '#' to the end of the line.
//!
//! What `lex` returns is pinned down, token by token and message by message,
//! by the specification function `spec_lex`.

use vstd::prelude::*;
use vstd::string::StrSliceExecFns;
use vstd::string::StringExecFns;

use crate::errors::LexError;
use crate::tokens::{KindModel, Token, TokenKind, TokenModel};
use crate::utils::{
    byte_offset_of,
    char_is_alphabetic,
    char_is_whitespace,
    chars_to_string,
    dec_digits,
    first_nl,
    ident_char,
    is_identifier_char,
    alpha_char,
    char_utf8_len,
    lemma_byte_offset_le,
    lemma_first_nl,
    lemma_first_nl_is_from,
    usize_to_string,
    white_char,
};

verus! {

// ---------------------------------------------------------------------------
// Case-insensitive keyword recognition (ASCII folding)
// ---------------------------------------------------------------------------

/// The code point of a character with an ASCII capital folded to lower case.
pub open spec fn lower_code(c: char) -> int {
    if 65 <= (c as u32) && (c as u32) <= 90 {
        (c as u32) + 32
    } else {
        (c as u32) as int
    }
}

/// Equality of character sequences up to ASCII case.
pub open spec fn seq_eq_nocase(a: Seq<char>, b: Seq<char>) -> bool {
    a.len() == b.len() && forall|i: int| 0 <= i < a.len() ==> lower_code(a[i]) == lower_code(b[i])
}

/// Compare two strings up to ASCII case.
pub fn str_eq_nocase(a: &str, b: &str) -> (r: bool)
    ensures
        r == seq_eq_nocase(a@, b@),
{
    let alen: usize = a.unicode_len();
    let blen: usize = b.unicode_len();
    if alen != blen {
        return false;
    }
    let mut i: usize = 0;
    while i < alen
        invariant
            alen == a@.len(),
            alen == b@.len(),
            i <= alen,
            forall|j: int| 0 <= j < i ==> lower_code(a@[j]) == lower_code(b@[j]),
        decreases alen - i,
    {
        let ua: u32 = a.get_char(i) as u32;
        let ub: u32 = b.get_char(i) as u32;
        let fa: u32 = if 65 <= ua && ua <= 90 {
            ua + 32
        } else {
            ua
        };
        let fb: u32 = if 65 <= ub && ub <= 90 {
            ub + 32
        } else {
            ub
        };
        if fa != fb {
            return false;
        }
        i += 1;
    }
    true
}

/// What a completed identifier run lexes to: a keyword, matched without
/// regard to ASCII case, or an identifier carrying the original text.
pub open spec fn keyword_or_ident(s: Seq<char>) -> KindModel {
    if seq_eq_nocase(s, "open"@) {
        KindModel::Open
    } else if seq_eq_nocase(s, "read"@) {
        KindModel::Read
    } else if seq_eq_nocase(s, "write"@) {
        KindModel::Write
    } else if seq_eq_nocase(s, "append"@) {
        KindModel::Append
    } else if seq_eq_nocase(s, "show"@) {
        KindModel::Show
    } else if seq_eq_nocase(s, "close"@) {
        KindModel::Close
    } else if seq_eq_nocase(s, "exit"@) {
        KindModel::Exit
    } else if seq_eq_nocase(s, "as"@) {
        KindModel::As
    } else if seq_eq_nocase(s, "truncate"@) {
        KindModel::Truncate
    } else if seq_eq_nocase(s, "search"@) {
        KindModel::Search
    } else if seq_eq_nocase(s, "replace"@) {
        KindModel::Replace
    } else if seq_eq_nocase(s, "linecount"@) {
        KindModel::LineCount
    } else if seq_eq_nocase(s, "copy"@) {
        KindModel::Copy
    } else if seq_eq_nocase(s, "move"@) {
        KindModel::Move
    } else if seq_eq_nocase(s, "remove"@) {
        KindModel::Remove
    } else if seq_eq_nocase(s, "rename"@) {
        KindModel::Rename
    } else if seq_eq_nocase(s, "listdir"@) {
        KindModel::ListDir
    } else if seq_eq_nocase(s, "dumpenv"@) {
        KindModel::DumpEnv
    } else if seq_eq_nocase(s, "help"@) {
        KindModel::Help
    } else {
        KindModel::Identifier(s)
    }
}

// ---------------------------------------------------------------------------
// Scanning helpers at the specification level
// ---------------------------------------------------------------------------

/// The end of an identifier run beginning at `i`: the first position at or
/// after `i` whose character cannot continue an identifier.
pub open spec fn ident_end(s: Seq<char>, i: int) -> int
    decreases s.len() - i,
{
    if 0 <= i < s.len() && ident_char(s[i]) {
        ident_end(s, i + 1)
    } else {
        i
    }
}

pub proof fn lemma_ident_end(s: Seq<char>, i: int)
    requires
        0 <= i <= s.len(),
    ensures
        i <= ident_end(s, i) <= s.len(),
        forall|j: int| i <= j < ident_end(s, i) ==> ident_char(s[j]),
        ident_end(s, i) < s.len() ==> !ident_char(s[ident_end(s, i)]),
    decreases s.len() - i,
{
    if i < s.len() && ident_char(s[i]) {
        lemma_ident_end(s, i + 1);
    }
}

/// The identifier run from `i` ends at `k` when everything before `k` can
/// continue an identifier and `k` cannot.
pub proof fn lemma_ident_end_is(s: Seq<char>, i: int, k: int)
    requires
        0 <= i <= k <= s.len(),
        forall|j: int| i <= j < k ==> ident_char(s[j]),
        k < s.len() ==> !ident_char(s[k]),
    ensures
        ident_end(s, i) == k,
    decreases k - i,
{
    if i < k {
        lemma_ident_end_is(s, i + 1, k);
    }
}

/// The first double quote at or after `i`, or the length if there is none.
pub open spec fn quote_end(s: Seq<char>, i: int) -> int
    decreases s.len() - i,
{
    if i < 0 || i >= s.len() {
        s.len() as int
    } else if s[i] == '"' {
        i
    } else {
        quote_end(s, i + 1)
    }
}

pub proof fn lemma_quote_end(s: Seq<char>, i: int)
    requires
        0 <= i <= s.len(),
    ensures
        i <= quote_end(s, i) <= s.len(),
        quote_end(s, i) < s.len() ==> s[quote_end(s, i)] == '"',
        forall|j: int| i <= j < quote_end(s, i) ==> s[j] != '"',
    decreases s.len() - i,
{
    if i < s.len() && s[i] != '"' {
        lemma_quote_end(s, i + 1);
    }
}

pub proof fn lemma_quote_end_is(s: Seq<char>, i: int, k: int)
    requires
        0 <= i <= k <= s.len(),
        forall|j: int| i <= j < k ==> s[j] != '"',
        k < s.len() ==> s[k] == '"',
    ensures
        k < s.len() ==> quote_end(s, i) == k,
        k == s.len() ==> quote_end(s, i) == s.len(),
    decreases k - i,
{
    if i < k {
        lemma_quote_end_is(s, i + 1, k);
    }
}

// ---------------------------------------------------------------------------
// The lexing function at the specification level
// ---------------------------------------------------------------------------

/// What lexing yields: the token sequence, or the message of the first
/// lexical error.
pub ghost enum LexOut {
    Toks(Seq<TokenModel>),
    Fail(Seq<char>),
}

/// Prefix one token onto a lexing outcome.
pub open spec fn push_tok(t: TokenModel, o: LexOut) -> LexOut {
    match o {
        LexOut::Toks(ts) => LexOut::Toks(seq![t] + ts),
        LexOut::Fail(m) => LexOut::Fail(m),
    }
}

/// Prefix finished tokens onto a lexing outcome.
pub open spec fn prepend_toks(p: Seq<TokenModel>, o: LexOut) -> LexOut {
    match o {
        LexOut::Toks(ts) => LexOut::Toks(p + ts),
        LexOut::Fail(m) => LexOut::Fail(m),
    }
}

/// The message for a character no token can begin with.
pub open spec fn msg_unexpected_char(c: char, bpos: int) -> Seq<char> {
    "Unexpected character '"@ + seq![c] + "' at position "@ + dec_digits(bpos as nat)
}

/// The message for a string literal no double quote closes.
pub open spec fn msg_unterminated_string(bpos: int) -> Seq<char> {
    "Unterminated string starting at position "@ + dec_digits(bpos as nat)
}

/// Lexing from character position `i` on. Whitespace other than a line feed
/// is skipped; a line feed or semicolon yields an end-of-statement token; a
/// `#` discards the rest of the line; a double quote opens a string literal;
/// an alphabetic character opens an identifier run, which is then matched
/// against the keywords; anything else is a lexical error. One final
/// end-of-statement token always stands at the end. Token positions are byte
/// offsets.
pub open spec fn spec_lex_from(s: Seq<char>, i: int) -> LexOut
    decreases s.len() - i,
    when 0 <= i <= s.len()
    via spec_lex_from_decreases
{
    if i >= s.len() {
        LexOut::Toks(
            seq![
                TokenModel {
                    kind: KindModel::EndOfStatement,
                    pos: byte_offset_of(s, s.len() as int),
                },
            ],
        )
    } else {
        let c = s[i];
        if white_char(c) && c != '\n' {
            spec_lex_from(s, i + 1)
        } else if c == '"' {
            let e = quote_end(s, i + 1);
            if e >= s.len() {
                LexOut::Fail(msg_unterminated_string(byte_offset_of(s, i + 1)))
            } else {
                push_tok(
                    TokenModel {
                        kind: KindModel::StringLit(s.subrange(i + 1, e)),
                        pos: byte_offset_of(s, i),
                    },
                    spec_lex_from(s, e + 1),
                )
            }
        } else if alpha_char(c) {
            let e = ident_end(s, i);
            push_tok(
                TokenModel {
                    kind: keyword_or_ident(s.subrange(i, e)),
                    pos: byte_offset_of(s, i),
                },
                spec_lex_from(s, e),
            )
        } else if c == '\n' || c == ';' {
            push_tok(
                TokenModel { kind: KindModel::EndOfStatement, pos: byte_offset_of(s, i) },
                spec_lex_from(s, i + 1),
            )
        } else if c == '#' {
            spec_lex_from(s, first_nl(s, i))
        } else {
            LexOut::Fail(msg_unexpected_char(c, byte_offset_of(s, i)))
        }
    }
}

#[via_fn]
proof fn spec_lex_from_decreases(s: Seq<char>, i: int) {
    if 0 <= i < s.len() {
        lemma_quote_end(s, i + 1);
        lemma_ident_end(s, i);
        if alpha_char(s[i]) {
            assert(ident_char(s[i]));
            assert(ident_end(s, i) == ident_end(s, i + 1));
            lemma_ident_end(s, i + 1);
        }
        if s[i] == '#' {
            assert(first_nl(s, i) == first_nl(s, i + 1));
            lemma_first_nl(s, i + 1);
        }
    }
}

/// The whole input lexed.
pub open spec fn spec_lex(s: Seq<char>) -> LexOut {
    spec_lex_from(s, 0)
}

/// How an executable result realises a lexing outcome.
pub open spec fn matches_lex_out(o: LexOut, r: Result<Vec<Token>, LexError>) -> bool {
    match o {
        LexOut::Toks(ts) => r is Ok && (r->Ok_0)@.map_values(|t: Token| t@) == ts,
        LexOut::Fail(m) => r is Err && (r->Err_0)@ == m,
    }
}

/// Skipping whitespace other than a line feed leaves the outcome unchanged.
pub proof fn lemma_lex_skip_ws(s: Seq<char>, i: int, j: int)
    requires
        0 <= i <= j <= s.len(),
        forall|k: int| i <= k < j ==> white_char(s[k]) && s[k] != '\n',
    ensures
        spec_lex_from(s, i) == spec_lex_from(s, j),
    decreases j - i,
{
    if i < j {
        lemma_lex_skip_ws(s, i + 1, j);
    }
}

// ---------------------------------------------------------------------------
// The executable lexer
// ---------------------------------------------------------------------------

pub struct Lexer<'a> {
    input: &'a str,
    /// Position in characters.
    pos: usize,
    /// Position in bytes, for diagnostics.
    bpos: usize,
    /// Input length in characters.
    length: usize,
}

impl<'a> Lexer<'a> {
    /// The input under the lexer.
    pub closed spec fn text(&self) -> Seq<char> {
        self.input@
    }

    pub closed spec fn wf(&self) -> bool {
        &&& self.length == self.input@.len()
        &&& self.pos <= self.length
        &&& self.bpos == byte_offset_of(self.input@, self.pos as int)
        &&& vstd::utf8::encode_utf8(self.input@).len() <= usize::MAX
    }

    /// A freshly created lexer, still standing at the beginning.
    pub closed spec fn at_start(&self) -> bool {
        self.wf() && self.pos == 0
    }

    pub fn new(input: &'a str) -> (r: Self)
        ensures
            r.at_start(),
            r.text() == input@,
    {
        let length: usize = input.unicode_len();
        let nbytes: usize = input.as_bytes().len();
        Self { input, pos: 0, bpos: 0, length }
    }

    fn is_at_end(&self) -> (r: bool)
        requires
            self.wf(),
        ensures
            r == (self.pos == self.length),
    {
        self.pos >= self.length
    }

    fn peek_char(&self) -> (r: char)
        requires
            self.wf(),
            self.pos < self.length,
        ensures
            r == self.text()[self.pos as int],
    {
        self.input.get_char(self.pos)
    }

    fn advance(&mut self) -> (r: char)
        requires
            old(self).wf(),
            old(self).pos < old(self).length,
        ensures
            final(self).wf(),
            final(self).text() == old(self).text(),
            final(self).length == old(self).length,
            final(self).pos == old(self).pos + 1,
            r == old(self).text()[old(self).pos as int],
    {
        let c: char = self.input.get_char(self.pos);
        let w: usize = char_utf8_len(c);
        proof {
            lemma_byte_offset_le(self.input@, self.pos as int + 1);
        }
        self.pos = self.pos + 1;
        self.bpos = self.bpos + w;
        c
    }

    fn skip_whitespace(&mut self)
        requires
            old(self).wf(),
        ensures
            final(self).wf(),
            final(self).text() == old(self).text(),
            final(self).length == old(self).length,
            old(self).pos <= final(self).pos,
            forall|k: int|
                old(self).pos <= k < final(self).pos ==> white_char(old(self).text()[k])
                    && old(self).text()[k] != '\n',
            final(self).pos < final(self).length ==> !(white_char(
                final(self).text()[final(self).pos as int],
            ) && final(self).text()[final(self).pos as int] != '\n'),
    {
        while !self.is_at_end()
            invariant
                self.wf(),
                self.text() == old(self).text(),
                self.length == old(self).length,
                old(self).pos <= self.pos,
                forall|k: int|
                    old(self).pos <= k < self.pos ==> white_char(old(self).text()[k]) && old(
                        self,
                    ).text()[k] != '\n',
            decreases self.length - self.pos,
        {
            let c: char = self.peek_char();
            if char_is_whitespace(c) && c != '\n' {
                self.advance();
            } else {
                return ;
            }
        }
    }

    fn lex_string(&mut self) -> (r: Result<String, LexError>)
        requires
            old(self).wf(),
            old(self).pos < old(self).length,
            old(self).text()[old(self).pos as int] == '"',
        ensures
            final(self).wf(),
            final(self).text() == old(self).text(),
            final(self).length == old(self).length,
            ({
                let e = quote_end(old(self).text(), old(self).pos + 1);
                &&& (e < old(self).length ==> r is Ok && (r->Ok_0)@ == old(self).text().subrange(
                    old(self).pos + 1,
                    e,
                ) && final(self).pos == e + 1)
                &&& (e >= old(self).length ==> r is Err && (r->Err_0)@ == msg_unterminated_string(
                    byte_offset_of(old(self).text(), old(self).pos + 1),
                ))
            }),
    {
        let ghost s = self.input@;
        self.advance();  // consume the opening quote
        let start: usize = self.pos;
        let bstart: usize = self.bpos;
        while !self.is_at_end() && self.peek_char() != '"'
            invariant
                self.wf(),
                self.input@ == s,
                self.length == old(self).length,
                start <= self.pos,
                start == old(self).pos + 1,
                forall|j: int| start <= j < self.pos ==> s[j] != '"',
            decreases self.length - self.pos,
        {
            self.advance();
        }
        if self.is_at_end() {
            proof {
                lemma_quote_end_is(s, start as int, s.len() as int);
            }
            let mut m: String = String::new();
            m.append("Unterminated string starting at position ");
            let d: String = usize_to_string(bstart);
            m.append(d.as_str());
            proof {
                assert(m@ =~= msg_unterminated_string(bstart as int));
            }
            Err(LexError::new(m))
        } else {
            proof {
                lemma_quote_end_is(s, start as int, self.pos as int);
            }
            let sub: &str = self.input.substring_char(start, self.pos);
            let payload: String = sub.to_owned();
            self.advance();  // consume the closing quote
            Ok(payload)
        }
    }

    fn lex_identifier(&mut self) -> (r: String)
        requires
            old(self).wf(),
        ensures
            final(self).wf(),
            final(self).text() == old(self).text(),
            final(self).length == old(self).length,
            final(self).pos == ident_end(old(self).text(), old(self).pos as int),
            r@ == old(self).text().subrange(old(self).pos as int, final(self).pos as int),
            old(self).pos <= final(self).pos,
    {
        let ghost s = self.input@;
        let start: usize = self.pos;
        while !self.is_at_end() && is_identifier_char(self.peek_char())
            invariant
                self.wf(),
                self.input@ == s,
                self.length == old(self).length,
                start <= self.pos,
                start == old(self).pos,
                forall|j: int| start <= j < self.pos ==> ident_char(s[j]),
            decreases self.length - self.pos,
        {
            self.advance();
        }
        proof {
            lemma_ident_end_is(s, start as int, self.pos as int);
        }
        let sub: &str = self.input.substring_char(start, self.pos);
        sub.to_owned()
    }

    fn lex_comment(&mut self)
        requires
            old(self).wf(),
        ensures
            final(self).wf(),
            final(self).text() == old(self).text(),
            final(self).length == old(self).length,
            final(self).pos == first_nl(old(self).text(), old(self).pos as int),
            old(self).pos <= final(self).pos,
    {
        let ghost s = self.input@;
        let start: usize = self.pos;
        while !self.is_at_end() && self.peek_char() != '\n'
            invariant
                self.wf(),
                self.input@ == s,
                self.length == old(self).length,
                start <= self.pos,
                start == old(self).pos,
                forall|j: int| start <= j < self.pos ==> s[j] != '\n',
            decreases self.length - self.pos,
        {
            self.advance();
        }
        proof {
            lemma_first_nl_is_from(s, start as int, self.pos as int);
        }
    }

    fn ident_to_keyword_or_identifier(&self, ident: &str) -> (r: TokenKind)
        ensures
            r@ == keyword_or_ident(ident@),
    {
        if str_eq_nocase(ident, "open") {
            TokenKind::Open
        } else if str_eq_nocase(ident, "read") {
            TokenKind::Read
        } else if str_eq_nocase(ident, "write") {
            TokenKind::Write
        } else if str_eq_nocase(ident, "append") {
            TokenKind::Append
        } else if str_eq_nocase(ident, "show") {
            TokenKind::Show
        } else if str_eq_nocase(ident, "close") {
            TokenKind::Close
        } else if str_eq_nocase(ident, "exit") {
            TokenKind::Exit
        } else if str_eq_nocase(ident, "as") {
            TokenKind::As
        } else if str_eq_nocase(ident, "truncate") {
            TokenKind::Truncate
        } else if str_eq_nocase(ident, "search") {
            TokenKind::Search
        } else if str_eq_nocase(ident, "replace") {
            TokenKind::Replace
        } else if str_eq_nocase(ident, "linecount") {
            TokenKind::LineCount
        } else if str_eq_nocase(ident, "copy") {
            TokenKind::Copy
        } else if str_eq_nocase(ident, "move") {
            TokenKind::Move
        } else if str_eq_nocase(ident, "remove") {
            TokenKind::Remove
        } else if str_eq_nocase(ident, "rename") {
            TokenKind::Rename
        } else if str_eq_nocase(ident, "listdir") {
            TokenKind::ListDir
        } else if str_eq_nocase(ident, "dumpenv") {
            TokenKind::DumpEnv
        } else if str_eq_nocase(ident, "help") {
            TokenKind::Help
        } else {
            TokenKind::Identifier(ident.to_owned())
        }
    }

    /// Lex the whole input into tokens, or fail on the first lexical error.
    pub fn lex(&mut self) -> (r: Result<Vec<Token>, LexError>)
        requires
            old(self).at_start(),
        ensures
            matches_lex_out(spec_lex(old(self).text()), r),
    {
        let ghost s = self.input@;
        let mut tokens: Vec<Token> = Vec::new();
        proof {
            assert(prepend_toks(tokens@.map_values(|t: Token| t@), spec_lex_from(s, 0))
                =~= spec_lex_from(s, 0)) by {
                match spec_lex_from(s, 0) {
                    LexOut::Toks(ts) => {
                        assert(tokens@.map_values(|t: Token| t@) + ts =~= ts);
                    },
                    LexOut::Fail(_) => {},
                }
            }
        }
        while !self.is_at_end()
            invariant
                self.wf(),
                self.input@ == s,
                old(self).text() == s,
                spec_lex(s) == prepend_toks(
                    tokens@.map_values(|t: Token| t@),
                    spec_lex_from(s, self.pos as int),
                ),
            ensures
                self.wf(),
                self.input@ == s,
                old(self).text() == s,
                self.pos == self.length,
                spec_lex(s) == prepend_toks(
                    tokens@.map_values(|t: Token| t@),
                    spec_lex_from(s, self.pos as int),
                ),
            decreases self.length - self.pos,
        {
            let ghost pre_pos = self.pos as int;
            self.skip_whitespace();
            proof {
                lemma_lex_skip_ws(s, pre_pos, self.pos as int);
            }
            if self.is_at_end() {
                break ;
            }
            let ghost here = self.pos as int;
            let c: char = self.peek_char();
            if c == '"' {
                let start: usize = self.bpos;
                let ghost pre_toks = tokens@;
                match self.lex_string() {
                    Ok(v) => {
                        proof {
                            lemma_quote_end(s, here + 1);
                        }
                        tokens.push(Token::new(TokenKind::String(v), start));
                        proof {
                            lemma_push_step(
                                s,
                                pre_toks,
                                tokens@,
                                TokenModel {
                                    kind: KindModel::StringLit(
                                        s.subrange(here + 1, quote_end(s, here + 1)),
                                    ),
                                    pos: byte_offset_of(s, here),
                                },
                                here,
                                self.pos as int,
                            );
                        }
                        continue ;
                    },
                    Err(e) => {
                        proof {
                            assert(!(white_char('"') && '"' != '\n'));
                            assert(quote_end(s, here + 1) >= s.len());
                            assert(spec_lex_from(s, here) == LexOut::Fail(
                                msg_unterminated_string(byte_offset_of(s, here + 1)),
                            ));
                            assert(spec_lex(s) == LexOut::Fail(
                                msg_unterminated_string(byte_offset_of(s, here + 1)),
                            ));
                            assert(old(self).text() == s);
                            assert(e@ == msg_unterminated_string(byte_offset_of(s, here + 1)));
                        }
                        return Err(e);
                    },
                }
            }
            if char_is_alphabetic(c) {
                let start: usize = self.bpos;
                let ghost pre_toks = tokens@;
                let ident: String = self.lex_identifier();
                let kind: TokenKind = self.ident_to_keyword_or_identifier(ident.as_str());
                tokens.push(Token::new(kind, start));
                proof {
                    lemma_ident_end(s, here);
                    lemma_push_step(
                        s,
                        pre_toks,
                        tokens@,
                        TokenModel {
                            kind: keyword_or_ident(s.subrange(here, ident_end(s, here))),
                            pos: byte_offset_of(s, here),
                        },
                        here,
                        self.pos as int,
                    );
                    assert(ident_end(s, here) > here) by {
                        assert(ident_char(s[here]));
                    }
                }
                continue ;
            }
            if c == '\n' || c == ';' {
                let start: usize = self.bpos;
                let ghost pre_toks = tokens@;
                self.advance();
                tokens.push(Token::new(TokenKind::EndOfStatement, start));
                proof {
                    lemma_push_step(
                        s,
                        pre_toks,
                        tokens@,
                        TokenModel { kind: KindModel::EndOfStatement, pos: byte_offset_of(s, here) },
                        here,
                        self.pos as int,
                    );
                }
                continue ;
            }
            if c == '#' {
                self.lex_comment();
                proof {
                    assert(first_nl(s, here) == first_nl(s, here + 1));
                    lemma_first_nl(s, here + 1);
                }
                continue ;
            }
            let mut m: String = String::new();
            m.append("Unexpected character '");
            let mut cv: Vec<char> = Vec::new();
            cv.push(c);
            let cs: String = chars_to_string(&cv);
            m.append(cs.as_str());
            m.append("' at position ");
            let d: String = usize_to_string(self.bpos);
            m.append(d.as_str());
            proof {
                assert(m@ =~= msg_unexpected_char(c, byte_offset_of(s, here)));
                assert(!white_char(c));
                assert(spec_lex_from(s, here) == LexOut::Fail(
                    msg_unexpected_char(c, byte_offset_of(s, here)),
                ));
                assert(spec_lex(s) == LexOut::Fail(msg_unexpected_char(c, byte_offset_of(s, here))));
                assert(old(self).text() == s);
            }
            return Err(LexError::new(m));
        }
        let start: usize = self.bpos;
        let ghost pre_toks = tokens@;
        tokens.push(Token::new(TokenKind::EndOfStatement, start));
        proof {
            let pv = pre_toks.map_values(|t: Token| t@);
            let eos = TokenModel {
                kind: KindModel::EndOfStatement,
                pos: byte_offset_of(s, s.len() as int),
            };
            assert(spec_lex_from(s, self.pos as int) == LexOut::Toks(seq![eos]));
            assert(tokens@.map_values(|t: Token| t@) =~= pv + seq![eos]);
            assert(spec_lex(s) == LexOut::Toks(tokens@.map_values(|t: Token| t@)));
        }
        Ok(tokens)
    }
}

/// One token step of the main lexing loop preserves its invariant: what the
/// step pushed is exactly the head that `spec_lex_from` yields at the old
/// position.
proof fn lemma_push_step(
    s: Seq<char>,
    pre: Seq<Token>,
    post: Seq<Token>,
    t: TokenModel,
    here: int,
    next: int,
)
    requires
        0 <= here <= s.len(),
        0 <= next <= s.len(),
        post.len() == pre.len() + 1,
        post == pre.push(post.last()),
        post.last()@ == t,
        spec_lex_from(s, here) == push_tok(t, spec_lex_from(s, next)),
    ensures
        prepend_toks(pre.map_values(|x: Token| x@), spec_lex_from(s, here)) == prepend_toks(
            post.map_values(|x: Token| x@),
            spec_lex_from(s, next),
        ),
{
    let pv = pre.map_values(|x: Token| x@);
    let qv = post.map_values(|x: Token| x@);
    assert(qv =~= pv.push(t));
    match spec_lex_from(s, next) {
        LexOut::Toks(ts) => {
            assert(pv + (seq![t] + ts) =~= qv + ts);
        },
        LexOut::Fail(_) => {},
    }
}

} // verus!
