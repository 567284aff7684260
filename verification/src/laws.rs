//! The laws of the library: what holds of the open/close state machine, of
//! failing disk actions, of truncation, of scripts made only of comments
//! and blank lines, and of re-lexing canonically serialized tokens.

use vstd::prelude::*;

use crate::ast::StmtModel;
use crate::environment::{entry_open, msg_already_open, EntryModel};
use crate::interpreter::{spec_apply, OutcomeModel};
use crate::lexer::{
    ident_end,
    keyword_or_ident,
    lemma_ident_end_is,
    lemma_quote_end_is,
    lower_code,
    push_tok,
    quote_end,
    seq_eq_nocase,
    spec_lex,
    spec_lex_from,
    LexOut,
};
use crate::parser::{spec_parse, spec_parse_from, ParseOut};
use crate::tokens::{KindModel, TokenModel};
use crate::utils::{
    alpha_char,
    byte_offset_of,
    first_nl,
    ident_char,
    lemma_first_nl,
    white_char,
};

verus! {

// ---------------------------------------------------------------------------
// The open/close state machine
// ---------------------------------------------------------------------------

/// The variable a statement operates on through the environment's gate, if
/// any: such a statement fails whenever that variable is absent or closed.
pub open spec fn content_target(st: StmtModel) -> Option<Seq<char>> {
    match st {
        StmtModel::Read { var_name } => Option::Some(var_name),
        StmtModel::Write { var_name, .. } => Option::Some(var_name),
        StmtModel::Append { var_name, .. } => Option::Some(var_name),
        StmtModel::Show { var_name } => Option::Some(var_name),
        StmtModel::Close { var_name } => Option::Some(var_name),
        StmtModel::Truncate { var_name } => Option::Some(var_name),
        StmtModel::Search { var_name, .. } => Option::Some(var_name),
        StmtModel::Replace { var_name, .. } => Option::Some(var_name),
        StmtModel::LineCount { var_name } => Option::Some(var_name),
        StmtModel::Rename { var_name, .. } => Option::Some(var_name),
        _ => Option::None,
    }
}

/// Law: whatever the history that produced the environment, closing an open
/// variable succeeds, leaves it closed, and opening it afterwards succeeds
/// again and resets its content to empty under the new filename.
pub proof fn lemma_open_after_close(
    m: Map<Seq<char>, EntryModel>,
    es: Seq<(Seq<char>, EntryModel)>,
    stop: bool,
    v: Seq<char>,
    f2: Seq<char>,
    oc: OutcomeModel,
)
    requires
        entry_open(m, v),
    ensures
        ({
            let after_close = spec_apply(m, es, stop, StmtModel::Close { var_name: v }, oc);
            let m1 = after_close.env;
            let after_open = spec_apply(
                m1,
                es,
                stop,
                StmtModel::Open { filename: f2, var_name: v },
                oc,
            );
            &&& after_close.err is None
            &&& !entry_open(m1, v)
            &&& after_open.err is None
            &&& entry_open(after_open.env, v)
            &&& after_open.env[v].filename == f2
            &&& after_open.env[v].content == Seq::<char>::empty()
        }),
{
}

/// Law: opening a variable that already holds an open file fails, with the
/// environment unchanged.
pub proof fn lemma_open_while_open_fails(
    m: Map<Seq<char>, EntryModel>,
    es: Seq<(Seq<char>, EntryModel)>,
    stop: bool,
    v: Seq<char>,
    f: Seq<char>,
    oc: OutcomeModel,
)
    requires
        entry_open(m, v),
    ensures
        ({
            let sr = spec_apply(m, es, stop, StmtModel::Open { filename: f, var_name: v }, oc);
            &&& sr.err == Option::Some(msg_already_open(v))
            &&& sr.env == m
        }),
{
}

/// Law: any content operation on a variable that is absent or closed fails,
/// with the environment unchanged, whatever the disk outcome.
pub proof fn lemma_content_op_needs_open(
    m: Map<Seq<char>, EntryModel>,
    es: Seq<(Seq<char>, EntryModel)>,
    stop: bool,
    st: StmtModel,
    v: Seq<char>,
    oc: OutcomeModel,
)
    requires
        content_target(st) == Option::Some(v),
        !entry_open(m, v),
    ensures
        ({
            let sr = spec_apply(m, es, stop, st, oc);
            &&& sr.err is Some
            &&& sr.env == m
        }),
{
}

// ---------------------------------------------------------------------------
// No partial mutation on failure
// ---------------------------------------------------------------------------

/// Law: whenever applying a statement fails — in particular when the disk
/// half of a write, append, truncate, replace or rename fails — the
/// environment's in-memory content and filenames are exactly what they were
/// before the statement, and the stop flag is untouched.
pub proof fn lemma_error_preserves_env(
    m: Map<Seq<char>, EntryModel>,
    es: Seq<(Seq<char>, EntryModel)>,
    stop: bool,
    st: StmtModel,
    oc: OutcomeModel,
)
    ensures
        ({
            let sr = spec_apply(m, es, stop, st, oc);
            sr.err is Some ==> sr.env == m && sr.stop == stop
        }),
{
}

// ---------------------------------------------------------------------------
// Idempotence of truncate
// ---------------------------------------------------------------------------

/// Law: truncating an open variable whose content is already empty succeeds
/// and leaves the whole environment unchanged.
pub proof fn lemma_truncate_idempotent(
    m: Map<Seq<char>, EntryModel>,
    es: Seq<(Seq<char>, EntryModel)>,
    stop: bool,
    v: Seq<char>,
)
    requires
        entry_open(m, v),
        m[v].content == Seq::<char>::empty(),
    ensures
        ({
            let sr = spec_apply(m, es, stop, StmtModel::Truncate { var_name: v }, OutcomeModel::Done);
            &&& sr.err is None
            &&& sr.env[v].content == Seq::<char>::empty()
            &&& sr.env =~= m
        }),
{
    let sr = spec_apply(m, es, stop, StmtModel::Truncate { var_name: v }, OutcomeModel::Done);
    assert(m[v] == EntryModel {
        filename: m[v].filename,
        content: Seq::<char>::empty(),
        is_open: true,
    });
    assert(sr.env =~= m);
}

// ---------------------------------------------------------------------------
// Comment and blank-line tolerance
// ---------------------------------------------------------------------------

/// A script that holds, from position `i` on, nothing but whitespace and
/// `#` comments.
pub open spec fn blank_comment_only(s: Seq<char>, i: int) -> bool
    decreases s.len() - i,
    when 0 <= i <= s.len()
    via blank_comment_only_decreases
{
    if i >= s.len() {
        true
    } else if white_char(s[i]) {
        blank_comment_only(s, i + 1)
    } else if s[i] == '#' {
        blank_comment_only(s, first_nl(s, i))
    } else {
        false
    }
}

#[via_fn]
proof fn blank_comment_only_decreases(s: Seq<char>, i: int) {
    if 0 <= i < s.len() && s[i] == '#' {
        assert(first_nl(s, i) == first_nl(s, i + 1));
        lemma_first_nl(s, i + 1);
    }
}

/// Every token of a lexed blank-or-comment script is an end-of-statement
/// token.
pub open spec fn all_end_of_statement(o: LexOut) -> bool {
    match o {
        LexOut::Toks(tms) => forall|j: int|
            0 <= j < tms.len() ==> (#[trigger] tms[j]).kind is EndOfStatement,
        LexOut::Fail(_) => false,
    }
}

proof fn lemma_blank_comment_lex_from(s: Seq<char>, i: int)
    requires
        0 <= i <= s.len(),
        blank_comment_only(s, i),
    ensures
        all_end_of_statement(spec_lex_from(s, i)),
    decreases s.len() - i,
{
    if i < s.len() {
        if white_char(s[i]) {
            if s[i] == '\n' {
                lemma_blank_comment_lex_from(s, i + 1);
                let rest = spec_lex_from(s, i + 1);
                match rest {
                    LexOut::Toks(tms) => {
                        assert(forall|j: int|
                            1 <= j < tms.len() + 1 ==> (#[trigger] (seq![
                                crate::tokens::TokenModel {
                                    kind: KindModel::EndOfStatement,
                                    pos: crate::utils::byte_offset_of(s, i),
                                },
                            ] + tms)[j]).kind is EndOfStatement);
                    },
                    LexOut::Fail(_) => {},
                }
            } else {
                lemma_blank_comment_lex_from(s, i + 1);
            }
        } else {
            assert(s[i] == '#');
            assert(first_nl(s, i) == first_nl(s, i + 1));
            lemma_first_nl(s, i + 1);
            lemma_blank_comment_lex_from(s, first_nl(s, i));
        }
    }
}

/// Parsing tokens that are all end-of-statement markers yields the empty
/// statement list.
proof fn lemma_parse_all_eos(ks: Seq<KindModel>, i: int)
    requires
        0 <= i <= ks.len(),
        forall|j: int| 0 <= j < ks.len() ==> (#[trigger] ks[j]) is EndOfStatement,
    ensures
        spec_parse_from(ks, i) == ParseOut::Stmts(Seq::<StmtModel>::empty()),
    decreases ks.len() - i,
{
    if i < ks.len() {
        lemma_parse_all_eos(ks, i + 1);
    }
}

/// Law: a script consisting only of comments and blank lines lexes without
/// error, and its tokens parse to the empty statement list.
pub proof fn lemma_blank_comment_script(s: Seq<char>)
    requires
        blank_comment_only(s, 0),
    ensures
        ({
            match spec_lex_from(s, 0) {
                LexOut::Toks(tms) => spec_parse(tms.map_values(|t: crate::tokens::TokenModel| t.kind))
                    == ParseOut::Stmts(Seq::<StmtModel>::empty()),
                LexOut::Fail(_) => false,
            }
        }),
{
    lemma_blank_comment_lex_from(s, 0);
    match spec_lex_from(s, 0) {
        LexOut::Toks(tms) => {
            let ks = tms.map_values(|t: crate::tokens::TokenModel| t.kind);
            assert(forall|j: int| 0 <= j < ks.len() ==> (#[trigger] ks[j]) is EndOfStatement);
            lemma_parse_all_eos(ks, 0);
        },
        LexOut::Fail(_) => {},
    }
}


// ---------------------------------------------------------------------------
// Round-trip lexing of canonically serialized tokens
// ---------------------------------------------------------------------------

/// The canonical text of one token kind: keywords in lower case, strings
/// between double quotes, an end of statement as a line feed.
pub open spec fn canon_text(k: KindModel) -> Seq<char> {
    match k {
        KindModel::Open => "open"@,
        KindModel::Read => "read"@,
        KindModel::Write => "write"@,
        KindModel::Append => "append"@,
        KindModel::Show => "show"@,
        KindModel::Close => "close"@,
        KindModel::Exit => "exit"@,
        KindModel::As => "as"@,
        KindModel::Truncate => "truncate"@,
        KindModel::Search => "search"@,
        KindModel::Replace => "replace"@,
        KindModel::LineCount => "linecount"@,
        KindModel::Copy => "copy"@,
        KindModel::Move => "move"@,
        KindModel::Remove => "remove"@,
        KindModel::Rename => "rename"@,
        KindModel::ListDir => "listdir"@,
        KindModel::DumpEnv => "dumpenv"@,
        KindModel::Help => "help"@,
        KindModel::Identifier(s) => s,
        KindModel::StringLit(s) => seq!['"'] + s + seq!['"'],
        KindModel::EndOfStatement => seq!['\n'],
    }
}

/// The canonical serialization of a token sequence: each token's text
/// followed by one space.
pub open spec fn canon(ts: Seq<KindModel>) -> Seq<char>
    decreases ts.len(),
{
    if ts.len() == 0 {
        Seq::empty()
    } else {
        canon_text(ts[0]) + seq![' '] + canon(ts.drop_first())
    }
}

/// A token the lexer itself could have produced: an identifier begins with
/// an alphabetic character, continues with identifier characters, and is
/// not a keyword; a string literal holds no double quote.
pub open spec fn wf_token(k: KindModel) -> bool {
    match k {
        KindModel::Identifier(s) => s.len() > 0 && alpha_char(s[0]) && (forall|i: int|
            0 <= i < s.len() ==> ident_char(#[trigger] s[i])) && keyword_or_ident(s)
            == KindModel::Identifier(s),
        KindModel::StringLit(s) => forall|i: int| 0 <= i < s.len() ==> (#[trigger] s[i]) != '"',
        _ => true,
    }
}

pub open spec fn wf_tokens(ts: Seq<KindModel>) -> bool {
    forall|i: int| 0 <= i < ts.len() ==> wf_token(#[trigger] ts[i])
}

/// The kinds of a sequence of lexed tokens.
pub open spec fn kinds_of_models(tms: Seq<TokenModel>) -> Seq<KindModel> {
    tms.map_values(|t: TokenModel| t.kind)
}

/// Each keyword's canonical text is recognised as that keyword.
proof fn lemma_keyword_classification()
    ensures
        keyword_or_ident("open"@) == KindModel::Open,
        keyword_or_ident("read"@) == KindModel::Read,
        keyword_or_ident("write"@) == KindModel::Write,
        keyword_or_ident("append"@) == KindModel::Append,
        keyword_or_ident("show"@) == KindModel::Show,
        keyword_or_ident("close"@) == KindModel::Close,
        keyword_or_ident("exit"@) == KindModel::Exit,
        keyword_or_ident("as"@) == KindModel::As,
        keyword_or_ident("truncate"@) == KindModel::Truncate,
        keyword_or_ident("search"@) == KindModel::Search,
        keyword_or_ident("replace"@) == KindModel::Replace,
        keyword_or_ident("linecount"@) == KindModel::LineCount,
        keyword_or_ident("copy"@) == KindModel::Copy,
        keyword_or_ident("move"@) == KindModel::Move,
        keyword_or_ident("remove"@) == KindModel::Remove,
        keyword_or_ident("rename"@) == KindModel::Rename,
        keyword_or_ident("listdir"@) == KindModel::ListDir,
        keyword_or_ident("dumpenv"@) == KindModel::DumpEnv,
        keyword_or_ident("help"@) == KindModel::Help,
{
    reveal_strlit("open");
    reveal_strlit("read");
    reveal_strlit("write");
    reveal_strlit("append");
    reveal_strlit("show");
    reveal_strlit("close");
    reveal_strlit("exit");
    reveal_strlit("as");
    reveal_strlit("truncate");
    reveal_strlit("search");
    reveal_strlit("replace");
    reveal_strlit("linecount");
    reveal_strlit("copy");
    reveal_strlit("move");
    reveal_strlit("remove");
    reveal_strlit("rename");
    reveal_strlit("listdir");
    reveal_strlit("dumpenv");
    reveal_strlit("help");
    assert(!seq_eq_nocase("read"@, "open"@)) by {
        assert(lower_code("read"@[0]) != lower_code("open"@[0]));
    }
    assert(!seq_eq_nocase("show"@, "open"@)) by {
        assert(lower_code("show"@[0]) != lower_code("open"@[0]));
    }
    assert(!seq_eq_nocase("show"@, "read"@)) by {
        assert(lower_code("show"@[0]) != lower_code("read"@[0]));
    }
    assert(!seq_eq_nocase("close"@, "write"@)) by {
        assert(lower_code("close"@[0]) != lower_code("write"@[0]));
    }
    assert(!seq_eq_nocase("exit"@, "open"@)) by {
        assert(lower_code("exit"@[0]) != lower_code("open"@[0]));
    }
    assert(!seq_eq_nocase("exit"@, "read"@)) by {
        assert(lower_code("exit"@[0]) != lower_code("read"@[0]));
    }
    assert(!seq_eq_nocase("exit"@, "show"@)) by {
        assert(lower_code("exit"@[0]) != lower_code("show"@[0]));
    }
    assert(!seq_eq_nocase("search"@, "append"@)) by {
        assert(lower_code("search"@[0]) != lower_code("append"@[0]));
    }
    assert(!seq_eq_nocase("copy"@, "open"@)) by {
        assert(lower_code("copy"@[0]) != lower_code("open"@[0]));
    }
    assert(!seq_eq_nocase("copy"@, "read"@)) by {
        assert(lower_code("copy"@[0]) != lower_code("read"@[0]));
    }
    assert(!seq_eq_nocase("copy"@, "show"@)) by {
        assert(lower_code("copy"@[0]) != lower_code("show"@[0]));
    }
    assert(!seq_eq_nocase("copy"@, "exit"@)) by {
        assert(lower_code("copy"@[0]) != lower_code("exit"@[0]));
    }
    assert(!seq_eq_nocase("move"@, "open"@)) by {
        assert(lower_code("move"@[0]) != lower_code("open"@[0]));
    }
    assert(!seq_eq_nocase("move"@, "read"@)) by {
        assert(lower_code("move"@[0]) != lower_code("read"@[0]));
    }
    assert(!seq_eq_nocase("move"@, "show"@)) by {
        assert(lower_code("move"@[0]) != lower_code("show"@[0]));
    }
    assert(!seq_eq_nocase("move"@, "exit"@)) by {
        assert(lower_code("move"@[0]) != lower_code("exit"@[0]));
    }
    assert(!seq_eq_nocase("move"@, "copy"@)) by {
        assert(lower_code("move"@[0]) != lower_code("copy"@[0]));
    }
    assert(!seq_eq_nocase("remove"@, "append"@)) by {
        assert(lower_code("remove"@[0]) != lower_code("append"@[0]));
    }
    assert(!seq_eq_nocase("remove"@, "search"@)) by {
        assert(lower_code("remove"@[0]) != lower_code("search"@[0]));
    }
    assert(!seq_eq_nocase("rename"@, "append"@)) by {
        assert(lower_code("rename"@[0]) != lower_code("append"@[0]));
    }
    assert(!seq_eq_nocase("rename"@, "search"@)) by {
        assert(lower_code("rename"@[0]) != lower_code("search"@[0]));
    }
    assert(!seq_eq_nocase("rename"@, "remove"@)) by {
        assert(lower_code("rename"@[2]) != lower_code("remove"@[2]));
    }
    assert(!seq_eq_nocase("listdir"@, "replace"@)) by {
        assert(lower_code("listdir"@[0]) != lower_code("replace"@[0]));
    }
    assert(!seq_eq_nocase("dumpenv"@, "replace"@)) by {
        assert(lower_code("dumpenv"@[0]) != lower_code("replace"@[0]));
    }
    assert(!seq_eq_nocase("dumpenv"@, "listdir"@)) by {
        assert(lower_code("dumpenv"@[0]) != lower_code("listdir"@[0]));
    }
    assert(!seq_eq_nocase("help"@, "open"@)) by {
        assert(lower_code("help"@[0]) != lower_code("open"@[0]));
    }
    assert(!seq_eq_nocase("help"@, "read"@)) by {
        assert(lower_code("help"@[0]) != lower_code("read"@[0]));
    }
    assert(!seq_eq_nocase("help"@, "show"@)) by {
        assert(lower_code("help"@[0]) != lower_code("show"@[0]));
    }
    assert(!seq_eq_nocase("help"@, "exit"@)) by {
        assert(lower_code("help"@[0]) != lower_code("exit"@[0]));
    }
    assert(!seq_eq_nocase("help"@, "copy"@)) by {
        assert(lower_code("help"@[0]) != lower_code("copy"@[0]));
    }
    assert(!seq_eq_nocase("help"@, "move"@)) by {
        assert(lower_code("help"@[0]) != lower_code("move"@[0]));
    }
}

/// What the suffix of the serialization looks like at its first token.
proof fn lemma_canon_decompose(s: Seq<char>, i: int, ts: Seq<KindModel>)
    requires
        0 <= i <= s.len(),
        s.subrange(i, s.len() as int) == canon(ts),
        ts.len() > 0,
    ensures
        i + canon_text(ts[0]).len() + 1 <= s.len(),
        s.subrange(i, i + canon_text(ts[0]).len()) == canon_text(ts[0]),
        s[i + canon_text(ts[0]).len()] == ' ',
        s.subrange(i + canon_text(ts[0]).len() + 1, s.len() as int) == canon(ts.drop_first()),
{
    let txt = canon_text(ts[0]);
    let tail = canon(ts.drop_first());
    let tl = txt.len() as int;
    let sub = s.subrange(i, s.len() as int);
    assert(sub == txt + seq![' '] + tail);
    assert(sub.len() == tl + 1 + tail.len());
    assert(s.subrange(i, i + tl) =~= txt) by {
        assert forall|j: int| 0 <= j < tl implies s.subrange(i, i + tl)[j] == txt[j] by {
            assert(s.subrange(i, i + tl)[j] == s[i + j]);
            assert(sub[j] == s[i + j]);
            assert(sub[j] == (txt + seq![' '] + tail)[j]);
        }
    }
    assert(sub[tl] == (txt + seq![' '] + tail)[tl]);
    assert(sub[tl] == s[i + tl]);
    assert(s.subrange(i + tl + 1, s.len() as int) =~= tail) by {
        assert forall|j: int| 0 <= j < s.len() - i - tl - 1 implies s.subrange(
            i + tl + 1,
            s.len() as int,
        )[j] == tail[j] by {
            assert(s.subrange(i + tl + 1, s.len() as int)[j] == s[i + tl + 1 + j]);
            assert(sub[tl + 1 + j] == s[i + tl + 1 + j]);
            assert(sub[tl + 1 + j] == (txt + seq![' '] + tail)[tl + 1 + j]);
        }
    }
}

/// The step lemmas share this closing argument: the lexed suffix is one
/// token in front of the recursively lexed remainder.
proof fn lemma_cons_kinds(tok: TokenModel, tms: Seq<TokenModel>, ts: Seq<KindModel>)
    requires
        ts.len() > 0,
        tok.kind == ts[0],
        kinds_of_models(tms) == ts.drop_first().push(KindModel::EndOfStatement),
    ensures
        kinds_of_models(seq![tok] + tms) == ts.push(KindModel::EndOfStatement),
{
    let lhs = kinds_of_models(seq![tok] + tms);
    let rhs = ts.push(KindModel::EndOfStatement);
    assert(kinds_of_models(tms).len() == tms.len());
    assert(tms.len() == ts.len());
    assert(lhs.len() == 1 + tms.len());
    assert forall|j: int| 0 <= j < lhs.len() implies lhs[j] == rhs[j] by {
        assert((seq![tok] + tms).map_values(|t: TokenModel| t.kind)[j] == (seq![tok] + tms)[
            j
        ].kind);
        assert(lhs[j] == (seq![tok] + tms)[j].kind);
        if j == 0 {
            assert((seq![tok] + tms)[0] == tok);
        } else {
            assert((seq![tok] + tms)[j] == tms[j - 1]);
            assert(kinds_of_models(tms)[j - 1] == tms[j - 1].kind);
            assert(tms[j - 1].kind == ts.drop_first().push(KindModel::EndOfStatement)[j - 1]);
            if j - 1 < ts.len() - 1 {
                assert(ts.drop_first()[j - 1] == ts[j]);
            }
        }
    }
    assert(lhs =~= rhs);
}

/// One identifier-shaped token (a keyword or an identifier) at the front of
/// the serialization lexes to exactly that token.
proof fn lemma_ident_like_step(s: Seq<char>, i: int, ts: Seq<KindModel>, txt: Seq<char>)
    requires
        0 <= i <= s.len(),
        s.subrange(i, s.len() as int) == canon(ts),
        wf_tokens(ts),
        ts.len() > 0,
        canon_text(ts[0]) == txt,
        txt.len() >= 1,
        alpha_char(txt[0]),
        forall|j: int| 0 <= j < txt.len() ==> ident_char(#[trigger] txt[j]),
        keyword_or_ident(txt) == ts[0],
    ensures
        spec_lex_from(s, i) matches LexOut::Toks(tms) && kinds_of_models(tms) == ts.push(
            KindModel::EndOfStatement,
        ),
    decreases ts.len(), 0int,
{
    let rest = ts.drop_first();
    let tl = txt.len() as int;
    lemma_canon_decompose(s, i, ts);
    let front = s.subrange(i, i + tl);
    assert forall|j: int| i <= j < i + tl implies ident_char(#[trigger] s[j]) by {
        assert(front[j - i] == s[j]);
        assert(ident_char(txt[j - i]));
    }
    assert(front[0] == s[i]);
    assert(s[i] == txt[0]);
    assert(!white_char(s[i]));
    assert(s[i] != '"');
    assert(!ident_char(s[i + tl]));
    lemma_ident_end_is(s, i, i + tl);
    assert(ident_end(s, i) == i + tl);
    assert(wf_tokens(rest)) by {
        assert(forall|j: int| 0 <= j < rest.len() ==> rest[j] == ts[j + 1]);
    }
    lemma_canon_lex_from(s, i + tl + 1, rest);
    assert(spec_lex_from(s, i + tl) == spec_lex_from(s, i + tl + 1));
    let tok = TokenModel { kind: ts[0], pos: byte_offset_of(s, i) };
    assert(keyword_or_ident(s.subrange(i, ident_end(s, i))) == ts[0]);
    assert(spec_lex_from(s, i) == push_tok(tok, spec_lex_from(s, i + tl)));
    match spec_lex_from(s, i + tl + 1) {
        LexOut::Toks(tms) => {
            lemma_cons_kinds(tok, tms, ts);
        },
        LexOut::Fail(_) => {
            assert(false);
        },
    }
}

/// One string literal at the front of the serialization lexes to exactly
/// that token.
proof fn lemma_string_step(s: Seq<char>, i: int, ts: Seq<KindModel>)
    requires
        0 <= i <= s.len(),
        s.subrange(i, s.len() as int) == canon(ts),
        wf_tokens(ts),
        ts.len() > 0,
        ts[0] is StringLit,
    ensures
        spec_lex_from(s, i) matches LexOut::Toks(tms) && kinds_of_models(tms) == ts.push(
            KindModel::EndOfStatement,
        ),
    decreases ts.len(), 0int,
{
    let rest = ts.drop_first();
    let sl = ts[0]->StringLit_0;
    let txt = canon_text(ts[0]);
    let tl = txt.len() as int;
    assert(tl == sl.len() + 2);
    lemma_canon_decompose(s, i, ts);
    let front = s.subrange(i, i + tl);
    assert(front[0] == s[i]);
    assert(txt[0] == '"');
    assert(s[i] == '"');
    assert(!white_char('"'));
    let e = i + 1 + sl.len() as int;
    assert forall|j: int| i + 1 <= j < e implies (#[trigger] s[j]) != '"' by {
        assert(front[j - i] == s[j]);
        assert(txt[j - i] == (seq!['"'] + sl + seq!['"'])[j - i]);
        assert(txt[j - i] == sl[j - i - 1]);
    }
    assert(front[tl - 1] == s[i + tl - 1]);
    assert(txt[tl - 1] == (seq!['"'] + sl + seq!['"'])[tl - 1]);
    assert(s[e] == '"');
    lemma_quote_end_is(s, i + 1, e);
    assert(quote_end(s, i + 1) == e);
    assert(s.subrange(i + 1, e) =~= sl) by {
        assert forall|j: int| 0 <= j < sl.len() implies s.subrange(i + 1, e)[j] == sl[j] by {
            assert(s.subrange(i + 1, e)[j] == s[i + 1 + j]);
            assert(front[1 + j] == s[i + 1 + j]);
            assert(txt[1 + j] == (seq!['"'] + sl + seq!['"'])[1 + j]);
        }
    }
    assert(wf_tokens(rest)) by {
        assert(forall|j: int| 0 <= j < rest.len() ==> rest[j] == ts[j + 1]);
    }
    lemma_canon_lex_from(s, i + tl + 1, rest);
    assert(s[i + tl] == ' ');
    assert(e + 1 == i + tl);
    assert(spec_lex_from(s, e + 1) == spec_lex_from(s, i + tl + 1));
    let tok = TokenModel { kind: ts[0], pos: byte_offset_of(s, i) };
    assert(spec_lex_from(s, i) == push_tok(tok, spec_lex_from(s, e + 1)));
    match spec_lex_from(s, i + tl + 1) {
        LexOut::Toks(tms) => {
            lemma_cons_kinds(tok, tms, ts);
        },
        LexOut::Fail(_) => {
            assert(false);
        },
    }
}

/// One end-of-statement token at the front of the serialization lexes to
/// exactly that token.
proof fn lemma_eos_step(s: Seq<char>, i: int, ts: Seq<KindModel>)
    requires
        0 <= i <= s.len(),
        s.subrange(i, s.len() as int) == canon(ts),
        wf_tokens(ts),
        ts.len() > 0,
        ts[0] is EndOfStatement,
    ensures
        spec_lex_from(s, i) matches LexOut::Toks(tms) && kinds_of_models(tms) == ts.push(
            KindModel::EndOfStatement,
        ),
    decreases ts.len(), 0int,
{
    let rest = ts.drop_first();
    lemma_canon_decompose(s, i, ts);
    let front = s.subrange(i, i + 1);
    assert(front[0] == s[i]);
    assert(s[i] == '\n');
    assert(!alpha_char('\n'));
    assert(wf_tokens(rest)) by {
        assert(forall|j: int| 0 <= j < rest.len() ==> rest[j] == ts[j + 1]);
    }
    lemma_canon_lex_from(s, i + 2, rest);
    assert(s[i + 1] == ' ');
    assert(spec_lex_from(s, i + 1) == spec_lex_from(s, i + 2));
    let tok = TokenModel { kind: KindModel::EndOfStatement, pos: byte_offset_of(s, i) };
    assert(spec_lex_from(s, i) == push_tok(tok, spec_lex_from(s, i + 1)));
    match spec_lex_from(s, i + 2) {
        LexOut::Toks(tms) => {
            lemma_cons_kinds(tok, tms, ts);
        },
        LexOut::Fail(_) => {
            assert(false);
        },
    }
}

proof fn lemma_canon_lex_from(s: Seq<char>, i: int, ts: Seq<KindModel>)
    requires
        0 <= i <= s.len(),
        s.subrange(i, s.len() as int) == canon(ts),
        wf_tokens(ts),
    ensures
        spec_lex_from(s, i) matches LexOut::Toks(tms) && kinds_of_models(tms) == ts.push(
            KindModel::EndOfStatement,
        ),
    decreases ts.len(), 1int,
{
    if ts.len() == 0 {
        assert(s.subrange(i, s.len() as int).len() == 0);
        assert(i == s.len());
        let tms = seq![
            TokenModel { kind: KindModel::EndOfStatement, pos: byte_offset_of(s, s.len() as int) },
        ];
        assert(spec_lex_from(s, i) == LexOut::Toks(tms));
        assert(kinds_of_models(tms) =~= ts.push(KindModel::EndOfStatement));
    } else {
        match ts[0] {
            KindModel::Open => {
                reveal_strlit("open");
                lemma_keyword_classification();
                assert(alpha_char("open"@[0]));
                assert forall|j: int| 0 <= j < "open"@.len() implies ident_char(
                    #[trigger] "open"@[j],
                ) by {
                    if j == 0 {
                        assert("open"@[0] == 'o');
                    } else if j == 1 {
                        assert("open"@[1] == 'p');
                    } else if j == 2 {
                        assert("open"@[2] == 'e');
                    } else if j == 3 {
                        assert("open"@[3] == 'n');
                    }
                }
                lemma_ident_like_step(s, i, ts, "open"@);
            },
            KindModel::Read => {
                reveal_strlit("read");
                lemma_keyword_classification();
                assert(alpha_char("read"@[0]));
                assert forall|j: int| 0 <= j < "read"@.len() implies ident_char(
                    #[trigger] "read"@[j],
                ) by {
                    if j == 0 {
                        assert("read"@[0] == 'r');
                    } else if j == 1 {
                        assert("read"@[1] == 'e');
                    } else if j == 2 {
                        assert("read"@[2] == 'a');
                    } else if j == 3 {
                        assert("read"@[3] == 'd');
                    }
                }
                lemma_ident_like_step(s, i, ts, "read"@);
            },
            KindModel::Write => {
                reveal_strlit("write");
                lemma_keyword_classification();
                assert(alpha_char("write"@[0]));
                assert forall|j: int| 0 <= j < "write"@.len() implies ident_char(
                    #[trigger] "write"@[j],
                ) by {
                    if j == 0 {
                        assert("write"@[0] == 'w');
                    } else if j == 1 {
                        assert("write"@[1] == 'r');
                    } else if j == 2 {
                        assert("write"@[2] == 'i');
                    } else if j == 3 {
                        assert("write"@[3] == 't');
                    } else if j == 4 {
                        assert("write"@[4] == 'e');
                    }
                }
                lemma_ident_like_step(s, i, ts, "write"@);
            },
            KindModel::Append => {
                reveal_strlit("append");
                lemma_keyword_classification();
                assert(alpha_char("append"@[0]));
                assert forall|j: int| 0 <= j < "append"@.len() implies ident_char(
                    #[trigger] "append"@[j],
                ) by {
                    if j == 0 {
                        assert("append"@[0] == 'a');
                    } else if j == 1 {
                        assert("append"@[1] == 'p');
                    } else if j == 2 {
                        assert("append"@[2] == 'p');
                    } else if j == 3 {
                        assert("append"@[3] == 'e');
                    } else if j == 4 {
                        assert("append"@[4] == 'n');
                    } else if j == 5 {
                        assert("append"@[5] == 'd');
                    }
                }
                lemma_ident_like_step(s, i, ts, "append"@);
            },
            KindModel::Show => {
                reveal_strlit("show");
                lemma_keyword_classification();
                assert(alpha_char("show"@[0]));
                assert forall|j: int| 0 <= j < "show"@.len() implies ident_char(
                    #[trigger] "show"@[j],
                ) by {
                    if j == 0 {
                        assert("show"@[0] == 's');
                    } else if j == 1 {
                        assert("show"@[1] == 'h');
                    } else if j == 2 {
                        assert("show"@[2] == 'o');
                    } else if j == 3 {
                        assert("show"@[3] == 'w');
                    }
                }
                lemma_ident_like_step(s, i, ts, "show"@);
            },
            KindModel::Close => {
                reveal_strlit("close");
                lemma_keyword_classification();
                assert(alpha_char("close"@[0]));
                assert forall|j: int| 0 <= j < "close"@.len() implies ident_char(
                    #[trigger] "close"@[j],
                ) by {
                    if j == 0 {
                        assert("close"@[0] == 'c');
                    } else if j == 1 {
                        assert("close"@[1] == 'l');
                    } else if j == 2 {
                        assert("close"@[2] == 'o');
                    } else if j == 3 {
                        assert("close"@[3] == 's');
                    } else if j == 4 {
                        assert("close"@[4] == 'e');
                    }
                }
                lemma_ident_like_step(s, i, ts, "close"@);
            },
            KindModel::Exit => {
                reveal_strlit("exit");
                lemma_keyword_classification();
                assert(alpha_char("exit"@[0]));
                assert forall|j: int| 0 <= j < "exit"@.len() implies ident_char(
                    #[trigger] "exit"@[j],
                ) by {
                    if j == 0 {
                        assert("exit"@[0] == 'e');
                    } else if j == 1 {
                        assert("exit"@[1] == 'x');
                    } else if j == 2 {
                        assert("exit"@[2] == 'i');
                    } else if j == 3 {
                        assert("exit"@[3] == 't');
                    }
                }
                lemma_ident_like_step(s, i, ts, "exit"@);
            },
            KindModel::As => {
                reveal_strlit("as");
                lemma_keyword_classification();
                assert(alpha_char("as"@[0]));
                assert forall|j: int| 0 <= j < "as"@.len() implies ident_char(
                    #[trigger] "as"@[j],
                ) by {
                    if j == 0 {
                        assert("as"@[0] == 'a');
                    } else if j == 1 {
                        assert("as"@[1] == 's');
                    }
                }
                lemma_ident_like_step(s, i, ts, "as"@);
            },
            KindModel::Truncate => {
                reveal_strlit("truncate");
                lemma_keyword_classification();
                assert(alpha_char("truncate"@[0]));
                assert forall|j: int| 0 <= j < "truncate"@.len() implies ident_char(
                    #[trigger] "truncate"@[j],
                ) by {
                    if j == 0 {
                        assert("truncate"@[0] == 't');
                    } else if j == 1 {
                        assert("truncate"@[1] == 'r');
                    } else if j == 2 {
                        assert("truncate"@[2] == 'u');
                    } else if j == 3 {
                        assert("truncate"@[3] == 'n');
                    } else if j == 4 {
                        assert("truncate"@[4] == 'c');
                    } else if j == 5 {
                        assert("truncate"@[5] == 'a');
                    } else if j == 6 {
                        assert("truncate"@[6] == 't');
                    } else if j == 7 {
                        assert("truncate"@[7] == 'e');
                    }
                }
                lemma_ident_like_step(s, i, ts, "truncate"@);
            },
            KindModel::Search => {
                reveal_strlit("search");
                lemma_keyword_classification();
                assert(alpha_char("search"@[0]));
                assert forall|j: int| 0 <= j < "search"@.len() implies ident_char(
                    #[trigger] "search"@[j],
                ) by {
                    if j == 0 {
                        assert("search"@[0] == 's');
                    } else if j == 1 {
                        assert("search"@[1] == 'e');
                    } else if j == 2 {
                        assert("search"@[2] == 'a');
                    } else if j == 3 {
                        assert("search"@[3] == 'r');
                    } else if j == 4 {
                        assert("search"@[4] == 'c');
                    } else if j == 5 {
                        assert("search"@[5] == 'h');
                    }
                }
                lemma_ident_like_step(s, i, ts, "search"@);
            },
            KindModel::Replace => {
                reveal_strlit("replace");
                lemma_keyword_classification();
                assert(alpha_char("replace"@[0]));
                assert forall|j: int| 0 <= j < "replace"@.len() implies ident_char(
                    #[trigger] "replace"@[j],
                ) by {
                    if j == 0 {
                        assert("replace"@[0] == 'r');
                    } else if j == 1 {
                        assert("replace"@[1] == 'e');
                    } else if j == 2 {
                        assert("replace"@[2] == 'p');
                    } else if j == 3 {
                        assert("replace"@[3] == 'l');
                    } else if j == 4 {
                        assert("replace"@[4] == 'a');
                    } else if j == 5 {
                        assert("replace"@[5] == 'c');
                    } else if j == 6 {
                        assert("replace"@[6] == 'e');
                    }
                }
                lemma_ident_like_step(s, i, ts, "replace"@);
            },
            KindModel::LineCount => {
                reveal_strlit("linecount");
                lemma_keyword_classification();
                assert(alpha_char("linecount"@[0]));
                assert forall|j: int| 0 <= j < "linecount"@.len() implies ident_char(
                    #[trigger] "linecount"@[j],
                ) by {
                    if j == 0 {
                        assert("linecount"@[0] == 'l');
                    } else if j == 1 {
                        assert("linecount"@[1] == 'i');
                    } else if j == 2 {
                        assert("linecount"@[2] == 'n');
                    } else if j == 3 {
                        assert("linecount"@[3] == 'e');
                    } else if j == 4 {
                        assert("linecount"@[4] == 'c');
                    } else if j == 5 {
                        assert("linecount"@[5] == 'o');
                    } else if j == 6 {
                        assert("linecount"@[6] == 'u');
                    } else if j == 7 {
                        assert("linecount"@[7] == 'n');
                    } else if j == 8 {
                        assert("linecount"@[8] == 't');
                    }
                }
                lemma_ident_like_step(s, i, ts, "linecount"@);
            },
            KindModel::Copy => {
                reveal_strlit("copy");
                lemma_keyword_classification();
                assert(alpha_char("copy"@[0]));
                assert forall|j: int| 0 <= j < "copy"@.len() implies ident_char(
                    #[trigger] "copy"@[j],
                ) by {
                    if j == 0 {
                        assert("copy"@[0] == 'c');
                    } else if j == 1 {
                        assert("copy"@[1] == 'o');
                    } else if j == 2 {
                        assert("copy"@[2] == 'p');
                    } else if j == 3 {
                        assert("copy"@[3] == 'y');
                    }
                }
                lemma_ident_like_step(s, i, ts, "copy"@);
            },
            KindModel::Move => {
                reveal_strlit("move");
                lemma_keyword_classification();
                assert(alpha_char("move"@[0]));
                assert forall|j: int| 0 <= j < "move"@.len() implies ident_char(
                    #[trigger] "move"@[j],
                ) by {
                    if j == 0 {
                        assert("move"@[0] == 'm');
                    } else if j == 1 {
                        assert("move"@[1] == 'o');
                    } else if j == 2 {
                        assert("move"@[2] == 'v');
                    } else if j == 3 {
                        assert("move"@[3] == 'e');
                    }
                }
                lemma_ident_like_step(s, i, ts, "move"@);
            },
            KindModel::Remove => {
                reveal_strlit("remove");
                lemma_keyword_classification();
                assert(alpha_char("remove"@[0]));
                assert forall|j: int| 0 <= j < "remove"@.len() implies ident_char(
                    #[trigger] "remove"@[j],
                ) by {
                    if j == 0 {
                        assert("remove"@[0] == 'r');
                    } else if j == 1 {
                        assert("remove"@[1] == 'e');
                    } else if j == 2 {
                        assert("remove"@[2] == 'm');
                    } else if j == 3 {
                        assert("remove"@[3] == 'o');
                    } else if j == 4 {
                        assert("remove"@[4] == 'v');
                    } else if j == 5 {
                        assert("remove"@[5] == 'e');
                    }
                }
                lemma_ident_like_step(s, i, ts, "remove"@);
            },
            KindModel::Rename => {
                reveal_strlit("rename");
                lemma_keyword_classification();
                assert(alpha_char("rename"@[0]));
                assert forall|j: int| 0 <= j < "rename"@.len() implies ident_char(
                    #[trigger] "rename"@[j],
                ) by {
                    if j == 0 {
                        assert("rename"@[0] == 'r');
                    } else if j == 1 {
                        assert("rename"@[1] == 'e');
                    } else if j == 2 {
                        assert("rename"@[2] == 'n');
                    } else if j == 3 {
                        assert("rename"@[3] == 'a');
                    } else if j == 4 {
                        assert("rename"@[4] == 'm');
                    } else if j == 5 {
                        assert("rename"@[5] == 'e');
                    }
                }
                lemma_ident_like_step(s, i, ts, "rename"@);
            },
            KindModel::ListDir => {
                reveal_strlit("listdir");
                lemma_keyword_classification();
                assert(alpha_char("listdir"@[0]));
                assert forall|j: int| 0 <= j < "listdir"@.len() implies ident_char(
                    #[trigger] "listdir"@[j],
                ) by {
                    if j == 0 {
                        assert("listdir"@[0] == 'l');
                    } else if j == 1 {
                        assert("listdir"@[1] == 'i');
                    } else if j == 2 {
                        assert("listdir"@[2] == 's');
                    } else if j == 3 {
                        assert("listdir"@[3] == 't');
                    } else if j == 4 {
                        assert("listdir"@[4] == 'd');
                    } else if j == 5 {
                        assert("listdir"@[5] == 'i');
                    } else if j == 6 {
                        assert("listdir"@[6] == 'r');
                    }
                }
                lemma_ident_like_step(s, i, ts, "listdir"@);
            },
            KindModel::DumpEnv => {
                reveal_strlit("dumpenv");
                lemma_keyword_classification();
                assert(alpha_char("dumpenv"@[0]));
                assert forall|j: int| 0 <= j < "dumpenv"@.len() implies ident_char(
                    #[trigger] "dumpenv"@[j],
                ) by {
                    if j == 0 {
                        assert("dumpenv"@[0] == 'd');
                    } else if j == 1 {
                        assert("dumpenv"@[1] == 'u');
                    } else if j == 2 {
                        assert("dumpenv"@[2] == 'm');
                    } else if j == 3 {
                        assert("dumpenv"@[3] == 'p');
                    } else if j == 4 {
                        assert("dumpenv"@[4] == 'e');
                    } else if j == 5 {
                        assert("dumpenv"@[5] == 'n');
                    } else if j == 6 {
                        assert("dumpenv"@[6] == 'v');
                    }
                }
                lemma_ident_like_step(s, i, ts, "dumpenv"@);
            },
            KindModel::Help => {
                reveal_strlit("help");
                lemma_keyword_classification();
                assert(alpha_char("help"@[0]));
                assert forall|j: int| 0 <= j < "help"@.len() implies ident_char(
                    #[trigger] "help"@[j],
                ) by {
                    if j == 0 {
                        assert("help"@[0] == 'h');
                    } else if j == 1 {
                        assert("help"@[1] == 'e');
                    } else if j == 2 {
                        assert("help"@[2] == 'l');
                    } else if j == 3 {
                        assert("help"@[3] == 'p');
                    }
                }
                lemma_ident_like_step(s, i, ts, "help"@);
            },
            KindModel::Identifier(sid) => {
                lemma_ident_like_step(s, i, ts, sid);
            },
            KindModel::StringLit(_) => {
                lemma_string_step(s, i, ts);
            },
            KindModel::EndOfStatement => {
                lemma_eos_step(s, i, ts);
            },
        }
    }
}

/// Law: re-lexing the canonical serialization of any well-formed token
/// sequence yields the same kinds and payloads back, with the lexer's one
/// trailing end-of-statement token appended; positions are not compared.
pub proof fn lemma_canon_round_trip(ts: Seq<KindModel>)
    requires
        wf_tokens(ts),
    ensures
        spec_lex(canon(ts)) matches LexOut::Toks(tms) && kinds_of_models(tms) == ts.push(
            KindModel::EndOfStatement,
        ),
{
    let s = canon(ts);
    assert(s.subrange(0, s.len() as int) =~= s);
    lemma_canon_lex_from(s, 0, ts);
}

} // verus!
