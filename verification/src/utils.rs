//! Character classification for the lexer, line splitting, decimal rendering,
//! and the regular-expression operations behind `search` and `replace`.

use vstd::prelude::*;

verus! {

// ---------------------------------------------------------------------------
// Character classes
//
// The lexer's character classes follow the Unicode classes of `char`. Inside
// ASCII the classes are written out exactly; beyond ASCII they are named by
// the uninterpreted functions below, which the trusted wrappers tie to the
// standard library.
// ---------------------------------------------------------------------------

/// Whether a character beyond ASCII has the Unicode Alphabetic property.
pub uninterp spec fn unicode_alphabetic(c: char) -> bool;

/// Whether a character beyond ASCII is alphanumeric in the Unicode sense.
pub uninterp spec fn unicode_alphanumeric(c: char) -> bool;

/// Whether a character beyond ASCII has the Unicode White_Space property.
pub uninterp spec fn unicode_whitespace(c: char) -> bool;

/// The class of characters that may begin an identifier.
pub open spec fn alpha_char(c: char) -> bool {
    ('a' <= c && c <= 'z') || ('A' <= c && c <= 'Z') || ((c as u32) >= 128
        && unicode_alphabetic(c))
}

/// The alphanumeric class. An alphabetic character is always alphanumeric,
/// so the non-ASCII arm admits both named classes.
pub open spec fn alnum_char(c: char) -> bool {
    ('a' <= c && c <= 'z') || ('A' <= c && c <= 'Z') || ('0' <= c && c <= '9') || ((c as u32)
        >= 128 && (unicode_alphanumeric(c) || unicode_alphabetic(c)))
}

/// The whitespace class. White space is disjoint from the alphanumeric
/// classes, which the non-ASCII arm records.
pub open spec fn white_char(c: char) -> bool {
    c == ' ' || c == '\t' || c == '\n' || c == '\r' || c == '\x0b' || c == '\x0c' || ((c as u32)
        >= 128 && unicode_whitespace(c) && !unicode_alphabetic(c) && !unicode_alphanumeric(c))
}

/// The class of characters that may continue an identifier.
pub open spec fn ident_char(c: char) -> bool {
    alnum_char(c) || c == '_' || c == '-' || c == '.'
}

/// Relies on char::is_alphabetic: within ASCII exactly the letters a-z and
/// A-Z are alphabetic; beyond ASCII the result is the Unicode Alphabetic
/// property, named by `unicode_alphabetic`.
#[verifier::external_body]
pub(crate) fn char_is_alphabetic(c: char) -> (r: bool)
    ensures
        r == alpha_char(c),
        (c as u32) >= 128 ==> r == unicode_alphabetic(c),
{
    c.is_alphabetic()
}

/// Relies on char::is_alphanumeric: within ASCII exactly letters and digits;
/// beyond ASCII the Unicode alphanumeric class, named by
/// `unicode_alphanumeric` (every alphabetic character is alphanumeric).
#[verifier::external_body]
pub(crate) fn char_is_alphanumeric(c: char) -> (r: bool)
    ensures
        r == alnum_char(c),
        (c as u32) >= 128 ==> r == (unicode_alphanumeric(c) || unicode_alphabetic(c)),
{
    c.is_alphanumeric()
}

/// Relies on char::is_whitespace: within ASCII exactly tab, line feed,
/// vertical tab, form feed, carriage return and space; beyond ASCII the
/// Unicode White_Space property, named by `unicode_whitespace`, which is
/// disjoint from the alphabetic and alphanumeric classes.
#[verifier::external_body]
pub(crate) fn char_is_whitespace(c: char) -> (r: bool)
    ensures
        r == white_char(c),
        (c as u32) >= 128 ==> r == (unicode_whitespace(c) && !unicode_alphabetic(c)
            && !unicode_alphanumeric(c)),
{
    c.is_whitespace()
}

/// Check if a character can be part of an identifier.
pub fn is_identifier_char(c: char) -> (r: bool)
    ensures
        r == ident_char(c),
{
    char_is_alphanumeric(c) || c == '_' || c == '-' || c == '.'
}

// ---------------------------------------------------------------------------
// UTF-8 width, for byte offsets in diagnostics
// ---------------------------------------------------------------------------

/// The number of bytes the UTF-8 encoding of a character takes.
pub open spec fn utf8_len(c: char) -> int {
    if (c as u32) < 0x80 {
        1
    } else if (c as u32) < 0x800 {
        2
    } else if (c as u32) < 0x10000 {
        3
    } else {
        4
    }
}

/// Compute the UTF-8 width of a character from its code point.
pub fn char_utf8_len(c: char) -> (r: usize)
    ensures
        r == utf8_len(c),
        1 <= r <= 4,
{
    let u: u32 = c as u32;
    if u < 0x80 {
        1
    } else if u < 0x800 {
        2
    } else if u < 0x10000 {
        3
    } else {
        4
    }
}

/// The byte offset of character position `i` within `s`.
pub open spec fn byte_offset_of(s: Seq<char>, i: int) -> int
    decreases i,
{
    if i <= 0 {
        0
    } else {
        byte_offset_of(s, i - 1) + utf8_len(s[i - 1])
    }
}

pub proof fn lemma_encode_scalar_len(c: char)
    ensures
        vstd::utf8::encode_scalar(c as u32).len() == utf8_len(c),
{
    vstd::utf8::char_is_scalar(c);
}

pub proof fn lemma_encode_push(t: Seq<char>, c: char)
    ensures
        vstd::utf8::encode_utf8(t.push(c)).len() == vstd::utf8::encode_utf8(t).len() + utf8_len(c),
    decreases t.len(),
{
    if t.len() == 0 {
        assert(t =~= Seq::<char>::empty());
        assert(t.push(c)[0] == c);
        assert(t.push(c).drop_first() =~= Seq::<char>::empty());
        lemma_encode_scalar_len(c);
        assert(vstd::utf8::encode_utf8(t.push(c)) == vstd::utf8::encode_scalar(c as u32)
            + vstd::utf8::encode_utf8(Seq::<char>::empty()));
        assert(vstd::utf8::encode_utf8(t.push(c)).len() == utf8_len(c));
    } else {
        assert(t.push(c)[0] == t[0]);
        assert(t.push(c).drop_first() =~= t.drop_first().push(c));
        lemma_encode_push(t.drop_first(), c);
        assert(vstd::utf8::encode_utf8(t.push(c)) == vstd::utf8::encode_scalar(t[0] as u32)
            + vstd::utf8::encode_utf8(t.drop_first().push(c)));
        assert(vstd::utf8::encode_utf8(t) == vstd::utf8::encode_scalar(t[0] as u32)
            + vstd::utf8::encode_utf8(t.drop_first()));
    }
}

pub proof fn lemma_byte_offset_encode(s: Seq<char>, i: int)
    requires
        0 <= i <= s.len(),
    ensures
        byte_offset_of(s, i) == vstd::utf8::encode_utf8(s.subrange(0, i)).len(),
    decreases i,
{
    if i == 0 {
        assert(s.subrange(0, 0) =~= Seq::<char>::empty());
    } else {
        lemma_byte_offset_encode(s, i - 1);
        assert(s.subrange(0, i) =~= s.subrange(0, i - 1).push(s[i - 1]));
        lemma_encode_push(s.subrange(0, i - 1), s[i - 1]);
    }
}

pub proof fn lemma_encode_concat(a: Seq<char>, b: Seq<char>)
    ensures
        vstd::utf8::encode_utf8(a + b).len() == vstd::utf8::encode_utf8(a).len()
            + vstd::utf8::encode_utf8(b).len(),
    decreases b.len(),
{
    if b.len() == 0 {
        assert(a + b =~= a);
    } else {
        assert(a + b =~= (a.push(b[0])) + b.drop_first());
        lemma_encode_push(a, b[0]);
        lemma_encode_scalar_len(b[0]);
        lemma_encode_concat(a.push(b[0]), b.drop_first());
    }
}

/// Byte offsets never pass the length of the whole encoding.
pub proof fn lemma_byte_offset_le(s: Seq<char>, i: int)
    requires
        0 <= i <= s.len(),
    ensures
        byte_offset_of(s, i) <= vstd::utf8::encode_utf8(s).len(),
        byte_offset_of(s, i) >= 0,
{
    lemma_byte_offset_encode(s, i);
    assert(s =~= s.subrange(0, i) + s.subrange(i, s.len() as int));
    lemma_encode_concat(s.subrange(0, i), s.subrange(i, s.len() as int));
}

// ---------------------------------------------------------------------------
// String helpers
// ---------------------------------------------------------------------------

/// Compare two string slices character by character.
pub fn str_eq(a: &str, b: &str) -> (r: bool)
    ensures
        r == (a@ == b@),
{
    let alen: usize = a.unicode_len();
    let blen: usize = b.unicode_len();
    if alen != blen {
        proof {
            assert(a@ != b@) by {
                assert(a@.len() != b@.len());
            }
        }
        return false;
    }
    let mut i: usize = 0;
    while i < alen
        invariant
            alen == a@.len(),
            alen == b@.len(),
            i <= alen,
            forall|j: int| 0 <= j < i ==> a@[j] == b@[j],
        decreases alen - i,
    {
        if a.get_char(i) != b.get_char(i) {
            return false;
        }
        i += 1;
    }
    proof {
        assert(a@ =~= b@);
    }
    true
}

/// Relies on the FromIterator implementation of String over characters: the
/// collected string holds exactly the characters of the vector, in order.
#[verifier::external_body]
pub(crate) fn chars_to_string(v: &Vec<char>) -> (r: String)
    ensures
        r@ == v@,
{
    v.iter().collect()
}

/// The character for one decimal digit.
pub open spec fn digit_char(d: int) -> char {
    if d == 0 {
        '0'
    } else if d == 1 {
        '1'
    } else if d == 2 {
        '2'
    } else if d == 3 {
        '3'
    } else if d == 4 {
        '4'
    } else if d == 5 {
        '5'
    } else if d == 6 {
        '6'
    } else if d == 7 {
        '7'
    } else if d == 8 {
        '8'
    } else {
        '9'
    }
}

/// The decimal rendering of a natural number, most significant digit first.
pub open spec fn dec_digits(n: nat) -> Seq<char>
    decreases n,
{
    if n < 10 {
        seq![digit_char(n as int)]
    } else {
        dec_digits(n / 10).push(digit_char((n % 10) as int))
    }
}

fn push_dec_digits(n: usize, v: &mut Vec<char>)
    ensures
        final(v)@ == old(v)@ + dec_digits(n as nat),
    decreases n,
{
    if n < 10 {
        let d: char = match n {
            0 => '0',
            1 => '1',
            2 => '2',
            3 => '3',
            4 => '4',
            5 => '5',
            6 => '6',
            7 => '7',
            8 => '8',
            _ => '9',
        };
        v.push(d);
        assert(v@ =~= old(v)@ + dec_digits(n as nat));
    } else {
        push_dec_digits(n / 10, v);
        let m: usize = n % 10;
        let d: char = match m {
            0 => '0',
            1 => '1',
            2 => '2',
            3 => '3',
            4 => '4',
            5 => '5',
            6 => '6',
            7 => '7',
            8 => '8',
            _ => '9',
        };
        v.push(d);
        assert(v@ =~= old(v)@ + dec_digits(n as nat));
    }
}

/// Render a number in decimal.
pub fn usize_to_string(n: usize) -> (r: String)
    ensures
        r@ == dec_digits(n as nat),
{
    let mut v: Vec<char> = Vec::new();
    push_dec_digits(n, &mut v);
    proof {
        assert(v@ =~= dec_digits(n as nat));
    }
    chars_to_string(&v)
}

// ---------------------------------------------------------------------------
// Line splitting, as str::lines does it: lines end at a line feed or at a
// carriage return followed by a line feed; the final line needs no ending.
// ---------------------------------------------------------------------------

/// The position of the first line feed at or after `i`, or the length.
pub open spec fn first_nl(s: Seq<char>, i: int) -> int
    decreases s.len() - i,
{
    if i < 0 || i >= s.len() {
        s.len() as int
    } else if s[i] == '\n' {
        i
    } else {
        first_nl(s, i + 1)
    }
}

pub proof fn lemma_first_nl(s: Seq<char>, i: int)
    requires
        0 <= i <= s.len(),
    ensures
        i <= first_nl(s, i) <= s.len(),
        first_nl(s, i) < s.len() ==> s[first_nl(s, i)] == '\n',
        forall|j: int| i <= j < first_nl(s, i) ==> s[j] != '\n',
    decreases s.len() - i,
{
    if i < s.len() && s[i] != '\n' {
        lemma_first_nl(s, i + 1);
    }
}

/// The first line feed of `s` is at `k` when nothing before `k` is one.
pub proof fn lemma_first_nl_is(s: Seq<char>, k: int)
    requires
        0 <= k <= s.len(),
        forall|j: int| 0 <= j < k ==> s[j] != '\n',
        k < s.len() ==> s[k] == '\n',
    ensures
        k < s.len() ==> first_nl(s, 0) == k,
        k == s.len() ==> first_nl(s, 0) == s.len(),
{
    lemma_first_nl_is_from(s, 0, k);
}

pub proof fn lemma_first_nl_is_from(s: Seq<char>, i: int, k: int)
    requires
        0 <= i <= k <= s.len(),
        forall|j: int| i <= j < k ==> s[j] != '\n',
        k < s.len() ==> s[k] == '\n',
    ensures
        k < s.len() ==> first_nl(s, i) == k,
        k == s.len() ==> first_nl(s, i) == s.len(),
    decreases k - i,
{
    if i < k {
        lemma_first_nl_is_from(s, i + 1, k);
    }
}

/// Drop one carriage return standing at the end of a line body.
pub open spec fn strip_cr(l: Seq<char>) -> Seq<char> {
    if l.len() > 0 && l[l.len() - 1] == '\r' {
        l.drop_last()
    } else {
        l
    }
}

/// The lines of a text: what str::lines yields, as a sequence of sequences.
pub open spec fn spec_lines(s: Seq<char>) -> Seq<Seq<char>>
    decreases s.len(),
    via spec_lines_decreases
{
    if s.len() == 0 {
        Seq::empty()
    } else {
        let i = first_nl(s, 0);
        if i >= s.len() {
            seq![s]
        } else {
            seq![strip_cr(s.subrange(0, i))] + spec_lines(s.subrange(i + 1, s.len() as int))
        }
    }
}

#[via_fn]
proof fn spec_lines_decreases(s: Seq<char>) {
    if s.len() > 0 {
        lemma_first_nl(s, 0);
    }
}

/// Split a text into its lines.
pub fn split_lines(s: &str) -> (r: Vec<String>)
    ensures
        r@.map_values(|l: String| l@) == spec_lines(s@),
{
    let len: usize = s.unicode_len();
    let mut r: Vec<String> = Vec::new();
    let mut start: usize = 0;
    let mut i: usize = 0;
    proof {
        assert(s@.subrange(0, len as int) =~= s@);
        assert(r@.map_values(|l: String| l@) + spec_lines(s@) =~= spec_lines(s@));
    }
    while i < len
        invariant
            len == s@.len(),
            0 <= start <= i <= len,
            forall|j: int| start <= j < i ==> s@[j] != '\n',
            spec_lines(s@) == r@.map_values(|l: String| l@) + spec_lines(
                s@.subrange(start as int, len as int),
            ),
        decreases len - i,
    {
        let c: char = s.get_char(i);
        if c == '\n' {
            let end: usize = if i > start && s.get_char(i - 1) == '\r' {
                i - 1
            } else {
                i
            };
            let line: String = s.substring_char(start, end).to_owned();
            proof {
                let t = s@.subrange(start as int, len as int);
                lemma_first_nl_is(t, i - start);
                assert(t.subrange(0, i - start) =~= s@.subrange(start as int, i as int));
                assert(t.subrange(i - start + 1, t.len() as int) =~= s@.subrange(
                    i + 1,
                    len as int,
                ));
                if i > start && s@[i - 1] == '\r' {
                    assert(strip_cr(t.subrange(0, i - start)) =~= s@.subrange(
                        start as int,
                        i - 1,
                    ));
                } else {
                    assert(strip_cr(t.subrange(0, i - start)) =~= s@.subrange(
                        start as int,
                        i as int,
                    ));
                }
            }
            let ghost pre = r@;
            r.push(line);
            proof {
                assert(r@.map_values(|l: String| l@) =~= pre.map_values(|l: String| l@).push(
                    line@,
                ));
            }
            start = i + 1;
        }
        i += 1;
    }
    if start < len {
        let line: String = s.substring_char(start, len).to_owned();
        proof {
            let t = s@.subrange(start as int, len as int);
            lemma_first_nl_is(t, t.len() as int);
        }
        r.push(line);
    }
    proof {
        if start < len {
            let t = s@.subrange(start as int, len as int);
            assert(spec_lines(t) =~= seq![t]);
        } else {
            assert(s@.subrange(start as int, len as int) =~= Seq::<char>::empty());
        }
        assert(r@.map_values(|l: String| l@) =~= spec_lines(s@));
    }
    r
}

// ---------------------------------------------------------------------------
// Regular expressions, through the regex crate
// ---------------------------------------------------------------------------

/// Whether a pattern is a valid regular expression.
pub uninterp spec fn regex_valid(pattern: Seq<char>) -> bool;

/// The rendering of the syntax error of an invalid pattern.
pub uninterp spec fn regex_error(pattern: Seq<char>) -> Seq<char>;

/// Whether a valid pattern matches somewhere in a text.
pub uninterp spec fn regex_matches(pattern: Seq<char>, text: Seq<char>) -> bool;

/// The text with every non-overlapping match of the pattern replaced.
pub uninterp spec fn regex_replaced(
    pattern: Seq<char>,
    text: Seq<char>,
    replacement: Seq<char>,
) -> Seq<char>;

/// Relies on regex::Regex::new: whether a pattern compiles is a function of
/// the pattern text alone, named `regex_valid`; the rendering of its syntax
/// error (regex::Error's Display) is named `regex_error`.
#[verifier::external_body]
pub(crate) fn regex_compile_check(pattern: &str) -> (r: Result<(), String>)
    ensures
        r is Ok <==> regex_valid(pattern@),
        r is Err ==> r->Err_0@ == regex_error(pattern@),
{
    match regex::Regex::new(pattern) {
        Ok(_) => Ok(()),
        Err(e) => Err(e.to_string()),
    }
}

/// Relies on regex::Regex::new and regex::Regex::is_match: whether a pattern
/// matches a haystack is a function of the pattern and haystack text alone,
/// named `regex_matches`.
#[verifier::external_body]
pub(crate) fn regex_line_match(pattern: &str, line: &str) -> (r: Result<bool, String>)
    ensures
        r is Ok <==> regex_valid(pattern@),
        r is Ok ==> r->Ok_0 == regex_matches(pattern@, line@),
        r is Err ==> r->Err_0@ == regex_error(pattern@),
{
    match regex::Regex::new(pattern) {
        Ok(re) => Ok(re.is_match(line)),
        Err(e) => Err(e.to_string()),
    }
}

/// Relies on regex::Regex::new and regex::Regex::replace_all: the text with
/// all non-overlapping matches substituted is a function of pattern, text
/// and replacement alone, named `regex_replaced`.
#[verifier::external_body]
pub fn replace_in_text(text: &str, pattern: &str, replacement: &str) -> (r: Result<String, String>)
    ensures
        r is Ok <==> regex_valid(pattern@),
        r is Ok ==> r->Ok_0@ == regex_replaced(pattern@, text@, replacement@),
        r is Err ==> r->Err_0@ == regex_error(pattern@),
{
    match regex::Regex::new(pattern) {
        Ok(re) => Ok(re.replace_all(text, replacement).to_string()),
        Err(e) => Err(e.to_string()),
    }
}

/// The view of a sequence of numbered lines.
pub open spec fn pairs_view(s: Seq<(usize, String)>) -> Seq<(usize, Seq<char>)> {
    s.map_values(|p: (usize, String)| (p.0, p.1@))
}

/// The numbered lines of `lines` from index `i` on that the pattern matches.
pub open spec fn spec_search_from(
    pattern: Seq<char>,
    lines: Seq<Seq<char>>,
    i: int,
) -> Seq<(usize, Seq<char>)>
    decreases lines.len() - i,
{
    if i < 0 || i >= lines.len() {
        Seq::empty()
    } else {
        let rest = spec_search_from(pattern, lines, i + 1);
        if regex_matches(pattern, lines[i]) {
            seq![((i + 1) as usize, lines[i])] + rest
        } else {
            rest
        }
    }
}

/// The matching lines of a text, numbered from one.
pub open spec fn spec_search(pattern: Seq<char>, text: Seq<char>) -> Seq<(usize, Seq<char>)> {
    spec_search_from(pattern, spec_lines(text), 0)
}

/// Search every line of a text for a pattern; return the matches with their
/// one-based line numbers, or the pattern's syntax error.
pub fn search_in_text(text: &str, pattern: &str) -> (r: Result<Vec<(usize, String)>, String>)
    ensures
        r is Ok <==> regex_valid(pattern@),
        r is Ok ==> pairs_view(r->Ok_0@) == spec_search(pattern@, text@),
        r is Err ==> r->Err_0@ == regex_error(pattern@),
{
    match regex_compile_check(pattern) {
        Err(e) => {
            return Err(e);
        },
        Ok(_) => {},
    }
    let lines: Vec<String> = split_lines(text);
    let mut results: Vec<(usize, String)> = Vec::new();
    let mut i: usize = 0;
    proof {
        assert(pairs_view(results@) =~= Seq::<(usize, Seq<char>)>::empty());
    }
    while i < lines.len()
        invariant
            regex_valid(pattern@),
            i <= lines.len(),
            lines@.map_values(|l: String| l@) == spec_lines(text@),
            spec_search(pattern@, text@) == pairs_view(results@) + spec_search_from(
                pattern@,
                spec_lines(text@),
                i as int,
            ),
        decreases lines.len() - i,
    {
        let ghost pre = results@;
        match regex_line_match(pattern, lines[i].as_str()) {
            Ok(true) => {
                results.push((i + 1, lines[i].clone()));
                proof {
                    assert(pairs_view(results@) =~= pairs_view(pre) + seq![
                        ((i + 1) as usize, spec_lines(text@)[i as int]),
                    ]);
                }
            },
            Ok(false) => {},
            Err(e) => {
                return Err(e);
            },
        }
        i += 1;
    }
    proof {
        assert(pairs_view(results@) =~= spec_search(pattern@, text@));
    }
    Ok(results)
}

} // verus!
