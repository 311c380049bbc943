//! The attribute model and parser.
//!
//! An attribute reaches the generator as a path plus a raw argument token
//! tree ([`RawAttr`]). The parser understands a small fixed grammar over
//! those tokens — a bare path, `path = literal`, and a parenthesised list
//! whose contents re-parse as another attribute shape — and decodes every
//! occurrence into the [`crate::metadata`] representation. It is total:
//! anything outside the grammar degrades to the `Unparsed` forms rather
//! than failing.

use vstd::prelude::*;
use vstd::string::StrSliceExecFns;

use crate::text::push_char;
use crate::text::push_str_chars;
use crate::text::str_eq;

verus! {

/// The delimiter of a token group.
#[derive(Debug, Clone, Copy, PartialEq, Eq, Structural)]
pub enum Delim {
    Paren,
    Bracket,
    Brace,
}

/// One raw token of an attribute's argument stream.
#[derive(Debug, PartialEq, Eq)]
pub enum Tok {
    /// An identifier or keyword.
    Ident(String),
    /// A single punctuation character (`::` arrives as two `:` tokens).
    Punct(char),
    /// A literal, carried as its verbatim source text (quotes included).
    Literal(String),
    /// A delimited group of nested tokens.
    Group(Delim, Vec<Tok>),
}

/// The argument form of one attribute occurrence.
#[derive(Debug, PartialEq, Eq)]
pub enum AttrArgs {
    /// `#[path]`
    Bare,
    /// `#[path(...)]`
    Paren(Vec<Tok>),
    /// `#[path = ...]`
    Eq(Vec<Tok>),
}

/// One attribute occurrence: its path (segments joined with `::`) and its
/// argument tokens.
#[derive(Debug, PartialEq, Eq)]
pub struct RawAttr {
    pub path: String,
    pub args: AttrArgs,
}

/// Structural size of a token, for termination of the nested decoding.
pub open spec fn tok_size(t: Tok) -> nat
    decreases t,
{
    match t {
        Tok::Group(_, ts) => 1 + toks_size(ts@, 0),
        _ => 1,
    }
}

/// Structural size of the tokens of `ts` from position `i` on.
pub open spec fn toks_size(ts: Seq<Tok>, i: int) -> nat
    decreases ts, ts.len() - i,
{
    if i < 0 || i >= ts.len() {
        0
    } else {
        tok_size(ts[i]) + toks_size(ts, i + 1)
    }
}

// ---------------------------------------------------------------------
// Verbatim rendering, for the `Unparsed` fallbacks.
// ---------------------------------------------------------------------
/// The rendering of one token: its text, with groups delimited.
pub open spec fn spec_tok_str(t: Tok) -> Seq<char>
    decreases t,
{
    match t {
        Tok::Ident(s) => s@,
        Tok::Punct(c) => seq![c],
        Tok::Literal(s) => s@,
        Tok::Group(d, ts) => seq![spec_open_delim(d)] + spec_toks_str(ts@, 0) + seq![
            spec_close_delim(d),
        ],
    }
}

/// The rendering of the tokens of `ts` from position `i` on, joined with
/// single spaces.
pub open spec fn spec_toks_str(ts: Seq<Tok>, i: int) -> Seq<char>
    decreases ts, ts.len() - i,
{
    if i < 0 || i >= ts.len() {
        Seq::empty()
    } else if i == ts.len() - 1 {
        spec_tok_str(ts[i])
    } else {
        spec_tok_str(ts[i]) + seq![' '] + spec_toks_str(ts, i + 1)
    }
}

pub open spec fn spec_open_delim(d: Delim) -> char {
    match d {
        Delim::Paren => '(',
        Delim::Bracket => '[',
        Delim::Brace => '{',
    }
}

pub open spec fn spec_close_delim(d: Delim) -> char {
    match d {
        Delim::Paren => ')',
        Delim::Bracket => ']',
        Delim::Brace => '}',
    }
}

fn tok_str_into(t: &Tok, out: &mut String)
    ensures
        final(out)@ == old(out)@ + spec_tok_str(*t),
    decreases tok_size(*t), 0nat,
{
    match t {
        Tok::Ident(s) => push_str_chars(out, s.as_str()),
        Tok::Punct(c) => push_char(out, *c),
        Tok::Literal(s) => push_str_chars(out, s.as_str()),
        Tok::Group(d, ts) => {
            let open = match d {
                Delim::Paren => '(',
                Delim::Bracket => '[',
                Delim::Brace => '{',
            };
            let close = match d {
                Delim::Paren => ')',
                Delim::Bracket => ']',
                Delim::Brace => '}',
            };
            push_char(out, open);
            toks_str_into(ts, 0, out);
            push_char(out, close);
            proof {
                assert(out@ =~= old(out)@ + spec_tok_str(*t));
            }
        },
    }
}

fn toks_str_into(ts: &Vec<Tok>, i: usize, out: &mut String)
    requires
        i <= ts@.len(),
    ensures
        final(out)@ == old(out)@ + spec_toks_str(ts@, i as int),
    decreases toks_size(ts@, i as int), 1nat,
{
    if i >= ts.len() {
        proof {
            assert(out@ =~= old(out)@ + spec_toks_str(ts@, i as int));
        }
        return ;
    }
    proof {
        assert(tok_size(ts@[i as int]) >= 1) by {
            match ts@[i as int] {
                Tok::Group(_, inner) => {},
                _ => {},
            }
        }
    }
    tok_str_into(&ts[i], out);
    if i + 1 < ts.len() {
        push_char(out, ' ');
        toks_str_into(ts, i + 1, out);
        proof {
            assert(out@ =~= old(out)@ + spec_toks_str(ts@, i as int));
        }
    } else {
        proof {
            assert(out@ =~= old(out)@ + spec_toks_str(ts@, i as int));
        }
    }
}

/// Renders the tokens of `ts` from position `i` on, for the `Unparsed`
/// fallbacks.
pub(crate) fn toks_to_string(ts: &Vec<Tok>, i: usize) -> (r: String)
    requires
        i <= ts@.len(),
    ensures
        r@ == spec_toks_str(ts@, i as int),
{
    let mut out = String::new();
    toks_str_into(ts, i, &mut out);
    out
}

// ---------------------------------------------------------------------
// Token accessors.
// ---------------------------------------------------------------------
/// The text of an identifier token.
pub open spec fn ident_text(t: Tok) -> Option<Seq<char>> {
    match t {
        Tok::Ident(s) => Some(s@),
        _ => None,
    }
}

/// The verbatim text of a literal token.
pub open spec fn lit_text(t: Tok) -> Option<Seq<char>> {
    match t {
        Tok::Literal(s) => Some(s@),
        _ => None,
    }
}

/// Whether `t` is the punctuation character `c`.
pub open spec fn is_punct(t: Tok, c: char) -> bool {
    match t {
        Tok::Punct(p) => p == c,
        _ => false,
    }
}

/// The contents of a parenthesised group token.
pub open spec fn paren_toks(t: Tok) -> Option<Seq<Tok>> {
    match t {
        Tok::Group(Delim::Paren, ts) => Some(ts@),
        _ => None,
    }
}

// ---------------------------------------------------------------------
// Paths.
// ---------------------------------------------------------------------
/// Parses a path (`ident`, `ident::ident`, ...) starting at position `j`.
/// Yields the path text with segments joined by `::`, the position after
/// the path, and whether the path is a single segment.
pub open spec fn spec_parse_path(ts: Seq<Tok>, j: int) -> Option<(Seq<char>, int, bool)> {
    if 0 <= j < ts.len() && ident_text(ts[j]) is Some {
        spec_path_rest(ts, j + 1, ident_text(ts[j]).unwrap(), true)
    } else {
        None
    }
}

/// Extends an already parsed path with any further `::ident` segments.
pub open spec fn spec_path_rest(ts: Seq<Tok>, j: int, acc: Seq<char>, single: bool) -> Option<
    (Seq<char>, int, bool),
>
    decreases ts.len() - j,
{
    if 0 <= j && j + 2 < ts.len() && is_punct(ts[j], ':') && is_punct(ts[j + 1], ':')
        && ident_text(ts[j + 2]) is Some {
        spec_path_rest(ts, j + 3, acc + "::"@ + ident_text(ts[j + 2]).unwrap(), false)
    } else {
        Some((acc, j, single))
    }
}

fn path_sep_at(ts: &Vec<Tok>, cur: usize) -> (r: bool)
    requires
        cur <= ts@.len(),
    ensures
        r == (cur + 2 < ts@.len() && is_punct(ts@[cur as int], ':') && is_punct(
            ts@[cur as int + 1],
            ':',
        ) && ident_text(ts@[cur as int + 2]) is Some),
{
    if ts.len() < 3 || cur >= ts.len() - 2 {
        return false;
    }
    let c1 = match &ts[cur] {
        Tok::Punct(p) => *p == ':',
        _ => false,
    };
    if !c1 {
        return false;
    }
    let c2 = match &ts[cur + 1] {
        Tok::Punct(p) => *p == ':',
        _ => false,
    };
    if !c2 {
        return false;
    }
    match &ts[cur + 2] {
        Tok::Ident(_) => true,
        _ => false,
    }
}

fn parse_path(ts: &Vec<Tok>, j: usize) -> (r: Option<(String, usize, bool)>)
    requires
        j <= ts@.len(),
    ensures
        ({
            let sp = spec_parse_path(ts@, j as int);
            match r {
                Some(p) => sp is Some && p.0@ == sp.unwrap().0 && p.1 as int == sp.unwrap().1
                    && p.2 == sp.unwrap().2 && j <= p.1 <= ts@.len(),
                None => sp is None,
            }
        }),
{
    if j >= ts.len() {
        return None;
    }
    let mut acc = match &ts[j] {
        Tok::Ident(s) => s.clone(),
        _ => { return None },
    };
    let mut cur = j + 1;
    let mut single = true;
    loop
        invariant
            j < ts@.len(),
            j + 1 <= cur <= ts@.len(),
            spec_parse_path(ts@, j as int) == spec_path_rest(ts@, cur as int, acc@, single),
        decreases ts@.len() - cur,
    {
        if !path_sep_at(ts, cur) {
            return Some((acc, cur, single));
        }
        proof {
            assert(ts@.len() <= usize::MAX) by {
                assert(ts@.len() == ts.len());
            }
        }
        let seg = match &ts[cur + 2] {
            Tok::Ident(s) => s.clone(),
            _ => { unreached() },
        };
        push_str_chars(&mut acc, "::");
        push_str_chars(&mut acc, seg.as_str());
        cur = cur + 3;
        single = false;
    }
}

// ---------------------------------------------------------------------
// Literals.
// ---------------------------------------------------------------------
pub open spec fn is_digit(c: char) -> bool {
    48 <= c as u32 <= 57
}

pub open spec fn is_digit_or_sep(c: char) -> bool {
    is_digit(c) || c == '_'
}

/// Decimal value of the digit prefix `s[..i]`, with `_` separators
/// ignored.
pub open spec fn dec_val(s: Seq<char>, i: int) -> int
    decreases i,
{
    if i <= 0 {
        0
    } else if s[i - 1] == '_' {
        dec_val(s, i - 1)
    } else {
        dec_val(s, i - 1) * 10 + (s[i - 1] as u32 - 48)
    }
}

/// The first position at or after `i` holding neither a digit nor `_`.
pub open spec fn first_nondigit(s: Seq<char>, i: int) -> int
    decreases s.len() - i,
{
    if i < 0 || i >= s.len() {
        s.len() as int
    } else if is_digit_or_sep(s[i]) {
        first_nondigit(s, i + 1)
    } else {
        i
    }
}

proof fn lemma_dec_val_nonneg(s: Seq<char>, i: int)
    requires
        forall|k: int| 0 <= k < i ==> is_digit_or_sep(#[trigger] s[k]),
        i <= s.len(),
    ensures
        dec_val(s, i) >= 0,
    decreases i,
{
    if i > 0 {
        lemma_dec_val_nonneg(s, i - 1);
    }
}

/// The decimal value of a digit prefix only grows as the prefix extends.
proof fn lemma_dec_val_mono(s: Seq<char>, i: int, j: int)
    requires
        0 <= i <= j <= s.len(),
        forall|k: int| 0 <= k < j ==> is_digit_or_sep(#[trigger] s[k]),
    ensures
        dec_val(s, i) <= dec_val(s, j),
    decreases j - i,
{
    if i < j {
        lemma_dec_val_mono(s, i, j - 1);
        lemma_dec_val_nonneg(s, j - 1);
    }
}

const I64_MAX_LIT: u64 = 9223372036854775807;

/// Parses the decimal digit prefix `s[..upto]` as an `i64`, or reports
/// that the value does not fit.
fn parse_dec_prefix(s: &str, upto: usize) -> (r: Option<i64>)
    requires
        upto <= s@.len(),
        forall|k: int| 0 <= k < upto ==> is_digit_or_sep(#[trigger] s@[k]),
    ensures
        match r {
            Some(v) => v as int == dec_val(s@, upto as int) && dec_val(s@, upto as int)
                <= i64::MAX,
            None => dec_val(s@, upto as int) > i64::MAX,
        },
{
    let mut acc: u64 = 0;
    let mut j: usize = 0;
    while j < upto
        invariant
            j <= upto <= s@.len(),
            forall|k: int| 0 <= k < upto ==> is_digit_or_sep(#[trigger] s@[k]),
            acc as int == dec_val(s@, j as int),
            acc <= I64_MAX_LIT,
        decreases upto - j,
    {
        let c = s.get_char(j);
        if c != '_' {
            let d = (c as u32) - 48;
            assert(d <= 9);
            let du = d as u64;
            if acc > (I64_MAX_LIT - du) / 10 {
                proof {
                    assert(dec_val(s@, j + 1 as int) == acc * 10 + d);
                    assert(acc * 10 + d > I64_MAX_LIT) by (nonlinear_arith)
                        requires
                            acc > (I64_MAX_LIT - du) / 10,
                            du == d,
                            d <= 9,
                            I64_MAX_LIT == 9223372036854775807,
                    ;
                    lemma_dec_val_mono(s@, j + 1 as int, upto as int);
                }
                return None;
            }
            proof {
                assert(acc * 10 + d <= I64_MAX_LIT) by (nonlinear_arith)
                    requires
                        acc <= (I64_MAX_LIT - du) / 10,
                        du == d,
                        d <= 9,
                        I64_MAX_LIT == 9223372036854775807,
                ;
            }
            acc = acc * 10 + du;
        }
        j += 1;
    }
    Some(acc as i64)
}

// ---------------------------------------------------------------------
// String literals.
// ---------------------------------------------------------------------
/// The character a recognised escape shorthand stands for.
pub open spec fn esc_map(c: char) -> Option<char> {
    if c == 'n' {
        Some('\n')
    } else if c == 'r' {
        Some('\r')
    } else if c == 't' {
        Some('\t')
    } else if c == '\\' {
        Some('\\')
    } else if c == '"' {
        Some('"')
    } else if c == '\'' {
        Some('\'')
    } else if c == '0' {
        Some('\0')
    } else {
        None
    }
}

/// Unescapes the body of a string literal from position `i` on; an
/// unrecognised escape is kept verbatim.
pub open spec fn spec_unescape(b: Seq<char>, i: int) -> Seq<char>
    decreases b.len() - i,
{
    if i < 0 || i >= b.len() {
        Seq::empty()
    } else if b[i] == '\\' && i + 1 < b.len() && esc_map(b[i + 1]) is Some {
        seq![esc_map(b[i + 1]).unwrap()] + spec_unescape(b, i + 2)
    } else {
        seq![b[i]] + spec_unescape(b, i + 1)
    }
}

/// The cooked value of a string literal token (quotes stripped, escapes
/// resolved).
pub open spec fn spec_cooked_str(t: Seq<char>) -> Seq<char> {
    if t.len() >= 2 {
        spec_unescape(t.subrange(1, t.len() - 1), 0)
    } else {
        Seq::empty()
    }
}

fn esc_char(c: char) -> (r: Option<char>)
    ensures
        r == esc_map(c),
{
    match c {
        'n' => Some('\n'),
        'r' => Some('\r'),
        't' => Some('\t'),
        '\\' => Some('\\'),
        '"' => Some('"'),
        '\'' => Some('\''),
        '0' => Some('\0'),
        _ => None,
    }
}

fn cook_str_lit(text: &String) -> (r: String)
    ensures
        r@ == spec_cooked_str(text@),
{
    let n = text.as_str().unicode_len();
    if n < 2 {
        return String::new();
    }
    let b = text.as_str().substring_char(1, n - 1);
    let m = b.unicode_len();
    let mut out = String::new();
    let mut i: usize = 0;
    while i < m
        invariant
            m == b@.len(),
            b@ == text@.subrange(1, text@.len() - 1),
            text@.len() >= 2,
            i <= m,
            spec_unescape(b@, 0) == out@ + spec_unescape(b@, i as int),
        decreases m - i,
    {
        let c = b.get_char(i);
        if c == '\\' && i + 1 < m {
            let e = b.get_char(i + 1);
            match esc_char(e) {
                Some(x) => {
                    push_char(&mut out, x);
                    proof {
                        assert(out@ + spec_unescape(b@, i + 2 as int) =~= spec_unescape(b@, 0));
                    }
                    i += 2;
                },
                None => {
                    push_char(&mut out, c);
                    proof {
                        assert(out@ + spec_unescape(b@, i + 1 as int) =~= spec_unescape(b@, 0));
                    }
                    i += 1;
                },
            }
        } else {
            push_char(&mut out, c);
            proof {
                assert(out@ + spec_unescape(b@, i + 1 as int) =~= spec_unescape(b@, 0));
            }
            i += 1;
        }
    }
    proof {
        assert(out@ =~= spec_unescape(b@, 0));
    }
    out
}

// ---------------------------------------------------------------------
// Literal classification.
// ---------------------------------------------------------------------
/// Classifies a literal token by its lexical kind: a quoted string, a
/// decimal integer (falling back to `Unparsed` when it does not fit an
/// `i64`), a float kept as text, and `Unparsed` for everything else.
pub open spec fn spec_classify_lit(t: Seq<char>) -> crate::metadata::MetaValueV {
    if t.len() == 0 {
        crate::metadata::MetaValueV::Unparsed(t)
    } else if t[0] == '"' {
        crate::metadata::MetaValueV::Str(spec_cooked_str(t))
    } else if !is_digit(t[0]) {
        crate::metadata::MetaValueV::Unparsed(t)
    } else if t.len() >= 2 && t[0] == '0' && (t[1] == 'x' || t[1] == 'o' || t[1] == 'b') {
        crate::metadata::MetaValueV::Unparsed(t)
    } else {
        let k = first_nondigit(t, 0);
        if k == t.len() {
            if dec_val(t, k) <= i64::MAX {
                crate::metadata::MetaValueV::Int(dec_val(t, k))
            } else {
                crate::metadata::MetaValueV::Unparsed(t)
            }
        } else if t[k] == '.' || t[k] == 'e' || t[k] == 'E' || t[k] == 'f' {
            crate::metadata::MetaValueV::Float(t)
        } else if t[k] == 'u' || t[k] == 'i' {
            if dec_val(t, k) <= i64::MAX {
                crate::metadata::MetaValueV::Int(dec_val(t, k))
            } else {
                crate::metadata::MetaValueV::Unparsed(t)
            }
        } else {
            crate::metadata::MetaValueV::Unparsed(t)
        }
    }
}

proof fn lemma_first_nondigit_bounds(t: Seq<char>, i: int)
    requires
        0 <= i <= t.len(),
    ensures
        i <= first_nondigit(t, i) <= t.len(),
        forall|k: int| i <= k < first_nondigit(t, i) ==> is_digit_or_sep(#[trigger] t[k]),
        first_nondigit(t, i) < t.len() ==> !is_digit_or_sep(t[first_nondigit(t, i)]),
    decreases t.len() - i,
{
    if i < t.len() && is_digit_or_sep(t[i]) {
        lemma_first_nondigit_bounds(t, i + 1);
    }
}

fn find_first_nondigit(s: &str) -> (r: usize)
    ensures
        r as int == first_nondigit(s@, 0),
        r <= s@.len(),
{
    let n = s.unicode_len();
    let mut i: usize = 0;
    while i < n
        invariant
            n == s@.len(),
            i <= n,
            first_nondigit(s@, 0) == first_nondigit(s@, i as int),
            forall|k: int| 0 <= k < i ==> is_digit_or_sep(#[trigger] s@[k]),
        decreases n - i,
    {
        let c = s.get_char(i);
        let u = c as u32;
        if !(48 <= u && u <= 57 || c == '_') {
            return i;
        }
        i += 1;
    }
    i
}

fn classify_literal(text: &String) -> (r: crate::metadata::MetaValue)
    ensures
        crate::metadata::value_view(r) == spec_classify_lit(text@),
{
    let n = text.as_str().unicode_len();
    if n == 0 {
        return crate::metadata::MetaValue::Unparsed(text.clone());
    }
    let c0 = text.as_str().get_char(0);
    if c0 == '"' {
        return crate::metadata::MetaValue::Str(cook_str_lit(text));
    }
    let u0 = c0 as u32;
    if !(48 <= u0 && u0 <= 57) {
        return crate::metadata::MetaValue::Unparsed(text.clone());
    }
    if n >= 2 {
        let c1 = text.as_str().get_char(1);
        if c0 == '0' && (c1 == 'x' || c1 == 'o' || c1 == 'b') {
            return crate::metadata::MetaValue::Unparsed(text.clone());
        }
    }
    let k = find_first_nondigit(text.as_str());
    proof {
        lemma_first_nondigit_bounds(text@, 0);
    }
    if k == n {
        match parse_dec_prefix(text.as_str(), k) {
            Some(v) => crate::metadata::MetaValue::Int(v),
            None => crate::metadata::MetaValue::Unparsed(text.clone()),
        }
    } else {
        let ck = text.as_str().get_char(k);
        if ck == '.' || ck == 'e' || ck == 'E' || ck == 'f' {
            crate::metadata::MetaValue::Float(text.clone())
        } else if ck == 'u' || ck == 'i' {
            match parse_dec_prefix(text.as_str(), k) {
                Some(v) => crate::metadata::MetaValue::Int(v),
                None => crate::metadata::MetaValue::Unparsed(text.clone()),
            }
        } else {
            crate::metadata::MetaValue::Unparsed(text.clone())
        }
    }
}

// ---------------------------------------------------------------------
// Values.
// ---------------------------------------------------------------------
/// Decodes the value tokens of a `key = value` pair starting at `j`: a
/// lone `true`/`false`, a lone literal by its lexical kind, a path, and
/// otherwise the verbatim fallback.
pub open spec fn spec_value_at(ts: Seq<Tok>, j: int) -> crate::metadata::MetaValueV {
    if j == ts.len() - 1 && ident_text(ts[j]) is Some {
        let t = ident_text(ts[j]).unwrap();
        if t == "true"@ {
            crate::metadata::MetaValueV::Bool(true)
        } else if t == "false"@ {
            crate::metadata::MetaValueV::Bool(false)
        } else {
            crate::metadata::MetaValueV::Path(t)
        }
    } else if j == ts.len() - 1 && lit_text(ts[j]) is Some {
        spec_classify_lit(lit_text(ts[j]).unwrap())
    } else {
        match spec_parse_path(ts, j) {
            Some(p) => if p.1 == ts.len() {
                crate::metadata::MetaValueV::Path(p.0)
            } else {
                crate::metadata::MetaValueV::Unparsed(spec_toks_str(ts, j))
            },
            None => crate::metadata::MetaValueV::Unparsed(spec_toks_str(ts, j)),
        }
    }
}

fn decode_value(ts: &Vec<Tok>, j: usize) -> (r: crate::metadata::MetaValue)
    requires
        j <= ts@.len(),
    ensures
        crate::metadata::value_view(r) == spec_value_at(ts@, j as int),
{
    let n = ts.len();
    if n > 0 && j == n - 1 {
        match &ts[j] {
            Tok::Ident(s) => {
                if str_eq(s.as_str(), "true") {
                    return crate::metadata::MetaValue::Bool(true);
                } else if str_eq(s.as_str(), "false") {
                    return crate::metadata::MetaValue::Bool(false);
                } else {
                    return crate::metadata::MetaValue::Path(s.clone());
                }
            },
            Tok::Literal(t) => {
                return classify_literal(t);
            },
            _ => {},
        }
    }
    match parse_path(ts, j) {
        Some(p) => {
            if p.1 == n {
                crate::metadata::MetaValue::Path(p.0)
            } else {
                crate::metadata::MetaValue::Unparsed(toks_to_string(ts, j))
            }
        },
        None => crate::metadata::MetaValue::Unparsed(toks_to_string(ts, j)),
    }
}

// ---------------------------------------------------------------------
// Attribute shapes.
// ---------------------------------------------------------------------
/// Parses a token stream as one attribute-meta shape: a bare path, a
/// `path = value` pair, or a path with one parenthesised group whose
/// contents re-parse recursively (degrading to the verbatim fallback when
/// they do not). Anything else is no meta shape at all.
pub open spec fn spec_decode_meta(ts: Seq<Tok>) -> Option<crate::metadata::AttributeMetaV>
    decreases ts,
{
    match spec_parse_path(ts, 0) {
        None => None,
        Some((p, e, single)) => {
            if e == ts.len() {
                Some(crate::metadata::AttributeMetaV::Path { path: p })
            } else if 0 <= e < ts.len() && is_punct(ts[e], '=') && e + 1 < ts.len() {
                Some(
                    crate::metadata::AttributeMetaV::NameValue {
                        path: p,
                        name: if single {
                            p
                        } else {
                            Seq::empty()
                        },
                        value: spec_value_at(ts, e + 1),
                    },
                )
            } else if e == ts.len() - 1 && paren_toks(ts[e]) is Some {
                let inner = paren_toks(ts[e]).unwrap();
                match spec_decode_meta(inner) {
                    Some(nested) => Some(
                        crate::metadata::AttributeMetaV::List { path: p, items: seq![nested] },
                    ),
                    None => Some(
                        crate::metadata::AttributeMetaV::Unparsed {
                            path: p,
                            tokens: spec_toks_str(inner, 0),
                        },
                    ),
                }
            } else {
                None
            }
        },
    }
}

fn decode_inner(ts: &Vec<Tok>) -> (r: Option<crate::metadata::AttributeMeta>)
    ensures
        match r {
            Some(m) => spec_decode_meta(ts@) == Some(crate::metadata::meta_view(m)),
            None => spec_decode_meta(ts@) is None,
        },
    decreases ts@,
{
    let n = ts.len();
    match parse_path(ts, 0) {
        None => None,
        Some((p, e, single)) => {
            if e == n {
                Some(crate::metadata::AttributeMeta::Path { path: p })
            } else {
                let at_eq = match &ts[e] {
                    Tok::Punct(c) => *c == '=',
                    _ => false,
                };
                if at_eq && e + 1 < n {
                    let name = if single {
                        p.clone()
                    } else {
                        String::new()
                    };
                    let value = decode_value(ts, e + 1);
                    Some(crate::metadata::AttributeMeta::NameValue { path: p, name, value })
                } else if e + 1 == n {
                    match &ts[e] {
                        Tok::Group(Delim::Paren, inner) => {
                            match decode_inner(inner) {
                                Some(nested) => {
                                    let items = vec![nested];
                                    proof {
                                        assert(crate::metadata::metas_view(items@, 1) =~=
                                        Seq::empty());
                                        assert(crate::metadata::metas_view(items@, 0) =~= seq![
                                            crate::metadata::meta_view(items@[0]),
                                        ]);
                                    }
                                    Some(
                                        crate::metadata::AttributeMeta::List { path: p, items },
                                    )
                                },
                                None => Some(
                                    crate::metadata::AttributeMeta::Unparsed {
                                        path: p,
                                        tokens: toks_to_string(inner, 0),
                                    },
                                ),
                            }
                        },
                        _ => None,
                    }
                } else {
                    None
                }
            }
        },
    }
}

/// No `:` anywhere in the path text: the path is a single identifier.
pub open spec fn no_colon(s: Seq<char>) -> bool {
    forall|k: int| 0 <= k < s.len() ==> s[k] != ':'
}

fn has_no_colon(s: &str) -> (r: bool)
    ensures
        r == no_colon(s@),
{
    let n = s.unicode_len();
    let mut i: usize = 0;
    while i < n
        invariant
            n == s@.len(),
            i <= n,
            forall|k: int| 0 <= k < i ==> s@[k] != ':',
        decreases n - i,
    {
        if s.get_char(i) == ':' {
            return false;
        }
        i += 1;
    }
    true
}

/// The decoding of one whole attribute occurrence.
pub open spec fn spec_decode_attr(a: RawAttr) -> crate::metadata::AttributeMetaV {
    match a.args {
        AttrArgs::Bare => crate::metadata::AttributeMetaV::Path { path: a.path@ },
        AttrArgs::Eq(vs) => crate::metadata::AttributeMetaV::NameValue {
            path: a.path@,
            name: if no_colon(a.path@) {
                a.path@
            } else {
                Seq::empty()
            },
            value: spec_value_at(vs@, 0),
        },
        AttrArgs::Paren(ts) => match spec_decode_meta(ts@) {
            Some(nested) => crate::metadata::AttributeMetaV::List {
                path: a.path@,
                items: seq![nested],
            },
            None => crate::metadata::AttributeMetaV::Unparsed {
                path: a.path@,
                tokens: spec_toks_str(ts@, 0),
            },
        },
    }
}

/// Decodes one attribute occurrence into the metadata representation.
/// Total: every input yields some `AttributeMeta`, with the `Unparsed`
/// forms as the fallback.
pub fn parse_meta_to_attribute_meta(attr: &RawAttr) -> (r: crate::metadata::AttributeMeta)
    ensures
        crate::metadata::meta_view(r) == spec_decode_attr(*attr),
{
    match &attr.args {
        AttrArgs::Bare => crate::metadata::AttributeMeta::Path { path: attr.path.clone() },
        AttrArgs::Eq(vs) => {
            let name = if has_no_colon(attr.path.as_str()) {
                attr.path.clone()
            } else {
                String::new()
            };
            let value = decode_value(vs, 0);
            crate::metadata::AttributeMeta::NameValue { path: attr.path.clone(), name, value }
        },
        AttrArgs::Paren(ts) => {
            match decode_inner(ts) {
                Some(nested) => {
                    let items = vec![nested];
                    proof {
                        assert(crate::metadata::metas_view(items@, 1) =~= Seq::empty());
                        assert(crate::metadata::metas_view(items@, 0) =~= seq![
                            crate::metadata::meta_view(items@[0]),
                        ]);
                    }
                    crate::metadata::AttributeMeta::List { path: attr.path.clone(), items }
                },
                None => crate::metadata::AttributeMeta::Unparsed {
                    path: attr.path.clone(),
                    tokens: toks_to_string(ts, 0),
                },
            }
        },
    }
}

// ---------------------------------------------------------------------
// Extraction over a declaration's attribute list.
// ---------------------------------------------------------------------
/// The two namespaces the generator recognises.
pub open spec fn spec_is_recognized(path: Seq<char>) -> bool {
    path == "visit"@ || path == "serde"@
}

/// The decodings of the recognised attributes of `attrs` from `i` on, in
/// order.
pub open spec fn spec_extract(attrs: Seq<RawAttr>, i: int) -> Seq<crate::metadata::AttributeMetaV>
    decreases attrs.len() - i,
{
    if i < 0 || i >= attrs.len() {
        Seq::empty()
    } else if spec_is_recognized(attrs[i].path@) {
        seq![spec_decode_attr(attrs[i])] + spec_extract(attrs, i + 1)
    } else {
        spec_extract(attrs, i + 1)
    }
}

proof fn lemma_metas_view_push(ms: Seq<crate::metadata::AttributeMeta>, m: crate::metadata::AttributeMeta, i: int)
    requires
        0 <= i <= ms.len(),
    ensures
        crate::metadata::metas_view(ms.push(m), i) == crate::metadata::metas_view(ms, i) + seq![
            crate::metadata::meta_view(m),
        ],
    decreases ms.len() - i,
{
    if i < ms.len() {
        lemma_metas_view_push(ms, m, i + 1);
        assert(ms.push(m)[i] == ms[i]);
        assert(crate::metadata::metas_view(ms.push(m), i) =~= crate::metadata::metas_view(ms, i)
            + seq![crate::metadata::meta_view(m)]);
    } else {
        assert(ms.push(m)[i] == m);
        assert(crate::metadata::metas_view(ms.push(m), i + 1) =~= Seq::empty());
        assert(crate::metadata::metas_view(ms.push(m), i) =~= seq![crate::metadata::meta_view(m)]);
        assert(crate::metadata::metas_view(ms, i) =~= Seq::empty());
    }
}

fn is_recognized_path(path: &String) -> (r: bool)
    ensures
        r == spec_is_recognized(path@),
{
    str_eq(path.as_str(), "visit") || str_eq(path.as_str(), "serde")
}

/// Filters a declaration's attributes to the recognised namespaces and
/// decodes each occurrence, in order.
pub fn extract_all_meta(attrs: &Vec<RawAttr>) -> (r: Vec<crate::metadata::AttributeMeta>)
    ensures
        crate::metadata::metas_view(r@, 0) == spec_extract(attrs@, 0),
{
    let mut out: Vec<crate::metadata::AttributeMeta> = Vec::new();
    let mut i: usize = 0;
    proof {
        assert(crate::metadata::metas_view(out@, 0) =~= Seq::empty());
    }
    while i < attrs.len()
        invariant
            i <= attrs@.len(),
            crate::metadata::metas_view(out@, 0) + spec_extract(attrs@, i as int) == spec_extract(
                attrs@,
                0,
            ),
        decreases attrs@.len() - i,
    {
        if is_recognized_path(&attrs[i].path) {
            let m = parse_meta_to_attribute_meta(&attrs[i]);
            proof {
                lemma_metas_view_push(out@, m, 0);
            }
            out.push(m);
            proof {
                assert(crate::metadata::metas_view(out@, 0) + spec_extract(attrs@, i + 1 as int)
                    =~= spec_extract(attrs@, 0));
            }
        }
        i += 1;
    }
    out
}

// ---------------------------------------------------------------------
// The dedicated fast paths for `rename`, `rename_all`, and `skip`.
// ---------------------------------------------------------------------
/// The string value of a `key = "..."` pair inside a parenthesised
/// attribute body, if the body decodes to exactly that shape.
pub open spec fn spec_nv_str(ts: Seq<Tok>, key: Seq<char>) -> Option<Seq<char>> {
    match spec_decode_meta(ts) {
        Some(m) => match m {
            crate::metadata::AttributeMetaV::NameValue { name, value, .. } => match value {
                crate::metadata::MetaValueV::Str(v) => if name == key {
                    Some(v)
                } else {
                    None
                },
                _ => None,
            },
            _ => None,
        },
        _ => None,
    }
}

/// The first explicit `key = "..."` among the recognised attributes from
/// `i` on.
pub open spec fn spec_explicit_str(attrs: Seq<RawAttr>, i: int, key: Seq<char>) -> Option<
    Seq<char>,
>
    decreases attrs.len() - i,
{
    if i < 0 || i >= attrs.len() {
        None
    } else {
        let a = attrs[i];
        if spec_is_recognized(a.path@) && match a.args {
            AttrArgs::Paren(ts) => spec_nv_str(ts@, key) is Some,
            _ => false,
        } {
            match a.args {
                AttrArgs::Paren(ts) => spec_nv_str(ts@, key),
                _ => None,
            }
        } else {
            spec_explicit_str(attrs, i + 1, key)
        }
    }
}

fn nv_str_of(ts: &Vec<Tok>, key: &str) -> (r: Option<String>)
    ensures
        match r {
            Some(v) => spec_nv_str(ts@, key@) == Some(v@),
            None => spec_nv_str(ts@, key@) is None,
        },
{
    match decode_inner(ts) {
        Some(m) => {
            match m {
                crate::metadata::AttributeMeta::NameValue {
                    name,
                    value: crate::metadata::MetaValue::Str(v),
                    ..
                } => {
                    if str_eq(name.as_str(), key) {
                        Some(v)
                    } else {
                        None
                    }
                },
                _ => None,
            }
        },
        None => None,
    }
}

/// Looks up the first explicit string value under `key` among the
/// recognised attributes.
pub fn get_explicit_str(attrs: &Vec<RawAttr>, key: &str) -> (r: Option<String>)
    ensures
        match r {
            Some(v) => spec_explicit_str(attrs@, 0, key@) == Some(v@),
            None => spec_explicit_str(attrs@, 0, key@) is None,
        },
{
    let mut i: usize = 0;
    while i < attrs.len()
        invariant
            i <= attrs@.len(),
            spec_explicit_str(attrs@, 0, key@) == spec_explicit_str(attrs@, i as int, key@),
        decreases attrs@.len() - i,
    {
        if is_recognized_path(&attrs[i].path) {
            match &attrs[i].args {
                AttrArgs::Paren(ts) => {
                    match nv_str_of(ts, key) {
                        Some(v) => {
                            return Some(v);
                        },
                        None => {},
                    }
                },
                _ => {},
            }
        }
        i += 1;
    }
    None
}

/// The first explicit `rename = "..."` among the recognised attributes:
/// the declaration's own rename.
pub fn get_rename_attribute(attrs: &Vec<RawAttr>) -> (r: Option<String>)
    ensures
        match r {
            Some(v) => spec_explicit_str(attrs@, 0, "rename"@) == Some(v@),
            None => spec_explicit_str(attrs@, 0, "rename"@) is None,
        },
{
    get_explicit_str(attrs, "rename")
}

/// The blanket rule selected by the attributes from `i` on: the first
/// `rename_all = "..."` whose value names a recognised rule; every other
/// value is passed over as if the attribute were absent.
pub open spec fn spec_rename_all(attrs: Seq<RawAttr>, i: int) -> crate::rename::RenameRule
    decreases attrs.len() - i,
{
    if i < 0 || i >= attrs.len() {
        crate::rename::RenameRule::Identity
    } else {
        let a = attrs[i];
        if spec_is_recognized(a.path@) && match a.args {
            AttrArgs::Paren(ts) => spec_nv_str(ts@, "rename_all"@) is Some
                && crate::rename::spec_rule_from_str(spec_nv_str(ts@, "rename_all"@).unwrap())
                is Some,
            _ => false,
        } {
            match a.args {
                AttrArgs::Paren(ts) => crate::rename::spec_rule_from_str(
                    spec_nv_str(ts@, "rename_all"@).unwrap(),
                ).unwrap(),
                _ => crate::rename::RenameRule::Identity,
            }
        } else {
            spec_rename_all(attrs, i + 1)
        }
    }
}

/// The blanket `rename_all` rule of a declaration; the identity when no
/// attribute names a recognised rule.
pub fn get_rename_all_attribute(attrs: &Vec<RawAttr>) -> (r: crate::rename::RenameRule)
    ensures
        r == spec_rename_all(attrs@, 0),
{
    let mut i: usize = 0;
    while i < attrs.len()
        invariant
            i <= attrs@.len(),
            spec_rename_all(attrs@, 0) == spec_rename_all(attrs@, i as int),
        decreases attrs@.len() - i,
    {
        if is_recognized_path(&attrs[i].path) {
            match &attrs[i].args {
                AttrArgs::Paren(ts) => {
                    match nv_str_of(ts, "rename_all") {
                        Some(v) => {
                            match crate::rename::RenameRule::from_str(v.as_str()) {
                                Some(rule) => {
                                    return rule;
                                },
                                None => {},
                            }
                        },
                        None => {},
                    }
                },
                _ => {},
            }
        }
        i += 1;
    }
    crate::rename::RenameRule::Identity
}

/// Whether this attribute is the skip marker: the bare form
/// `visit(skip)`, under the framework's own namespace only.
pub open spec fn spec_is_skip_attr(a: RawAttr) -> bool {
    a.path@ == "visit"@ && match a.args {
        AttrArgs::Paren(ts) => ts@.len() == 1 && ident_text(ts@[0]) == Some("skip"@),
        _ => false,
    }
}

pub fn is_skip_attr(a: &RawAttr) -> (r: bool)
    ensures
        r == spec_is_skip_attr(*a),
{
    if !str_eq(a.path.as_str(), "visit") {
        return false;
    }
    match &a.args {
        AttrArgs::Paren(ts) => {
            if ts.len() != 1 {
                return false;
            }
            match &ts[0] {
                Tok::Ident(s) => str_eq(s.as_str(), "skip"),
                _ => false,
            }
        },
        _ => false,
    }
}

} // verus!
