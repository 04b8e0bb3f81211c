//! Tokenization of source text: identifiers, string literals, numeric
//! codes, and the punctuation of the definition grammar.
//!
//! A string literal runs from its opening `"` to the next `"`; escape
//! sequences are not interpreted, so a literal cannot contain a double
//! quote. The emitters re-quote the raw text verbatim, so every literal
//! this lexer accepts round-trips into well-formed output.

use vstd::prelude::*;
use crate::token::{Token, TokenV, token_views};

verus! {

/// Why tokenization stopped, at the character position where it did.
#[derive(Clone, Copy, Debug, PartialEq, Eq, Structural)]
pub enum LexErrorKind {
    /// A character that starts no token.
    UnexpectedChar,
    /// A `:` not followed by a second `:`.
    LonePathColon,
    /// A string literal with no closing quote.
    UnterminatedString,
    /// An integer literal above the numeric code range.
    CodeOutOfRange,
}

/// A tokenization failure: the character position where the offending
/// construct starts, and what was wrong with it.
#[derive(Clone, Copy, Debug, PartialEq, Eq, Structural)]
pub struct LexError {
    pub pos: usize,
    pub kind: LexErrorKind,
}

/// Whitespace between tokens.
pub open spec fn is_space(c: char) -> bool {
    c == ' ' || c == '\t' || c == '\n' || c == '\r'
}

/// A decimal digit.
pub open spec fn is_digit(c: char) -> bool {
    '0' as u32 <= c as u32 && c as u32 <= '9' as u32
}

/// A character that may open an identifier.
pub open spec fn is_ident_start(c: char) -> bool {
    c == '_' || ('a' as u32 <= c as u32 && c as u32 <= 'z' as u32) || ('A' as u32 <= c as u32
        && c as u32 <= 'Z' as u32)
}

/// A character that may continue an identifier.
pub open spec fn is_ident_continue(c: char) -> bool {
    is_ident_start(c) || is_digit(c)
}

/// The position just past the identifier characters running from `i`.
pub open spec fn ident_run(s: Seq<char>, i: int) -> int
    decreases s.len() - i,
    when 0 <= i <= s.len()
{
    if i < s.len() && is_ident_continue(s[i]) {
        ident_run(s, i + 1)
    } else {
        i
    }
}

/// The position just past the digits running from `i`.
pub open spec fn digit_run(s: Seq<char>, i: int) -> int
    decreases s.len() - i,
    when 0 <= i <= s.len()
{
    if i < s.len() && is_digit(s[i]) {
        digit_run(s, i + 1)
    } else {
        i
    }
}

/// The position of the first `"` at or after `i`, or the input's length
/// when there is none.
pub open spec fn quote_scan(s: Seq<char>, i: int) -> int
    decreases s.len() - i,
    when 0 <= i <= s.len()
{
    if i < s.len() && s[i] != '"' {
        quote_scan(s, i + 1)
    } else {
        i
    }
}

/// The value of the decimal digits of `s` from `i` to `j`.
pub open spec fn digits_value(s: Seq<char>, i: int, j: int) -> int
    decreases j - i,
    when i <= j
{
    if j <= i {
        0
    } else {
        digits_value(s, i, j - 1) * 10 + (s[j - 1] as u32 - '0' as u32)
    }
}

/// An identifier run stays within the input and past its start.
proof fn lemma_ident_run_bounds(s: Seq<char>, i: int)
    requires
        0 <= i <= s.len(),
    ensures
        i <= ident_run(s, i) <= s.len(),
    decreases s.len() - i,
{
    if i < s.len() && is_ident_continue(s[i]) {
        lemma_ident_run_bounds(s, i + 1);
    }
}

/// A digit run stays within the input and past its start.
proof fn lemma_digit_run_bounds(s: Seq<char>, i: int)
    requires
        0 <= i <= s.len(),
    ensures
        i <= digit_run(s, i) <= s.len(),
    decreases s.len() - i,
{
    if i < s.len() && is_digit(s[i]) {
        lemma_digit_run_bounds(s, i + 1);
    }
}

/// A quote scan stays within the input and past its start.
proof fn lemma_quote_scan_bounds(s: Seq<char>, i: int)
    requires
        0 <= i <= s.len(),
    ensures
        i <= quote_scan(s, i) <= s.len(),
    decreases s.len() - i,
{
    if i < s.len() && s[i] != '"' {
        lemma_quote_scan_bounds(s, i + 1);
    }
}

/// Every character of a digit run is a digit.
proof fn lemma_digit_run_chars(s: Seq<char>, i: int)
    requires
        0 <= i <= s.len(),
    ensures
        forall|k: int| i <= k < digit_run(s, i) ==> is_digit(s[k]),
    decreases s.len() - i,
{
    if i < s.len() && is_digit(s[i]) {
        lemma_digit_run_chars(s, i + 1);
    }
}

/// The given token followed by whatever the rest of the input yields.
pub open spec fn cons_tok(t: TokenV, rest: Result<Seq<TokenV>, LexError>) -> Result<
    Seq<TokenV>,
    LexError,
> {
    match rest {
        Ok(r) => Ok(seq![t] + r),
        Err(e) => Err(e),
    }
}

/// What tokenizing the input from character position `i` to the end
/// yields: the tokens in order, or the first tokenization failure.
pub open spec fn lex_from(s: Seq<char>, i: int) -> Result<Seq<TokenV>, LexError>
    decreases s.len() - i,
    when 0 <= i <= s.len()
    via lex_from_dec
{
    if i >= s.len() {
        Ok(Seq::empty())
    } else {
        let c = s[i];
        if is_space(c) {
            lex_from(s, i + 1)
        } else if c == '=' {
            cons_tok(TokenV::Eq, lex_from(s, i + 1))
        } else if c == ',' {
            cons_tok(TokenV::Comma, lex_from(s, i + 1))
        } else if c == '(' {
            cons_tok(TokenV::LParen, lex_from(s, i + 1))
        } else if c == ')' {
            cons_tok(TokenV::RParen, lex_from(s, i + 1))
        } else if c == ':' {
            if i + 1 < s.len() && s[i + 1] == ':' {
                cons_tok(TokenV::PathSep, lex_from(s, i + 2))
            } else {
                Err(LexError { pos: i as usize, kind: LexErrorKind::LonePathColon })
            }
        } else if c == '"' {
            let j = quote_scan(s, i + 1);
            if j >= s.len() {
                Err(LexError { pos: i as usize, kind: LexErrorKind::UnterminatedString })
            } else {
                cons_tok(TokenV::StrLit(s.subrange(i + 1, j)), lex_from(s, j + 1))
            }
        } else if is_digit(c) {
            let j = digit_run(s, i);
            if digits_value(s, i, j) > 65535 {
                Err(LexError { pos: i as usize, kind: LexErrorKind::CodeOutOfRange })
            } else {
                cons_tok(TokenV::IntLit(digits_value(s, i, j) as u16), lex_from(s, j))
            }
        } else if is_ident_start(c) {
            let j = ident_run(s, i + 1);
            cons_tok(TokenV::Ident(s.subrange(i, j)), lex_from(s, j))
        } else {
            Err(LexError { pos: i as usize, kind: LexErrorKind::UnexpectedChar })
        }
    }
}

#[via_fn]
proof fn lex_from_dec(s: Seq<char>, i: int) {
    if 0 <= i && i < s.len() {
        let c = s[i];
        if c == '"' {
            lemma_quote_scan_bounds(s, i + 1);
        } else if is_digit(c) {
            lemma_digit_run_bounds(s, i + 1);
        } else if is_ident_start(c) {
            lemma_ident_run_bounds(s, i + 1);
        }
    }
}

/// Whether `c` is whitespace.
fn char_is_space(c: char) -> (r: bool)
    ensures
        r == is_space(c),
{
    c == ' ' || c == '\t' || c == '\n' || c == '\r'
}

/// Whether `c` is a decimal digit.
fn char_is_digit(c: char) -> (r: bool)
    ensures
        r == is_digit(c),
{
    let u = c as u32;
    48 <= u && u <= 57
}

/// Whether `c` may open an identifier.
fn char_is_ident_start(c: char) -> (r: bool)
    ensures
        r == is_ident_start(c),
{
    let u = c as u32;
    c == '_' || (97 <= u && u <= 122) || (65 <= u && u <= 90)
}

/// Whether `c` may continue an identifier.
fn char_is_ident_continue(c: char) -> (r: bool)
    ensures
        r == is_ident_continue(c),
{
    char_is_ident_start(c) || char_is_digit(c)
}

/// Finds the position just past the identifier characters running from `i`.
fn ident_run_exec(s: &str, i: usize, n: usize) -> (r: usize)
    requires
        i <= s@.len(),
        n == s@.len(),
    ensures
        r == ident_run(s@, i as int),
        i <= r <= s@.len(),
    decreases s@.len() - i,
{
    if i < n && char_is_ident_continue(s.get_char(i)) {
        ident_run_exec(s, i + 1, n)
    } else {
        i
    }
}

/// Finds the position of the first `"` at or after `i`, or the input's
/// length when there is none.
fn quote_scan_exec(s: &str, i: usize, n: usize) -> (r: usize)
    requires
        i <= s@.len(),
        n == s@.len(),
    ensures
        r == quote_scan(s@, i as int),
        i <= r <= s@.len(),
    decreases s@.len() - i,
{
    if i < n && s.get_char(i) != '"' {
        quote_scan_exec(s, i + 1, n)
    } else {
        i
    }
}

/// Finds the position just past the digits running from `i`.
fn digit_run_exec(s: &str, i: usize, n: usize) -> (r: usize)
    requires
        i <= s@.len(),
        n == s@.len(),
    ensures
        r == digit_run(s@, i as int),
        i <= r <= s@.len(),
    decreases s@.len() - i,
{
    if i < n && char_is_digit(s.get_char(i)) {
        digit_run_exec(s, i + 1, n)
    } else {
        i
    }
}

/// Reads the value of the digit run from `i` to `end`, clamped just above
/// the numeric code range so that overflow is detected exactly.
fn digits_value_exec(s: &str, i: usize, end: usize) -> (r: u32)
    requires
        i <= end <= s@.len(),
        forall|k: int| i <= k < end ==> is_digit(s@[k]),
    ensures
        digits_value(s@, i as int, end as int) <= 65535 ==> r == digits_value(
            s@,
            i as int,
            end as int,
        ),
        digits_value(s@, i as int, end as int) > 65535 ==> r == 65536,
{
    let mut v: u32 = 0;
    let mut j: usize = i;
    while j < end
        invariant
            i <= j <= end <= s@.len(),
            forall|k: int| i <= k < end ==> is_digit(s@[k]),
            digits_value(s@, i as int, j as int) <= 65535 ==> v == digits_value(
                s@,
                i as int,
                j as int,
            ),
            digits_value(s@, i as int, j as int) > 65535 ==> v == 65536,
        decreases end - j,
    {
        let u = s.get_char(j) as u32;
        proof {
            assert(is_digit(s@[j as int]));
        }
        let d = u - 48;
        if v > 65535 {
            v = 65536;
        } else {
            v = v * 10 + d;
            if v > 65535 {
                v = 65536;
            }
        }
        j += 1;
        proof {
            assert(digits_value(s@, i as int, j as int) == digits_value(s@, i as int, j - 1) * 10
                + (s@[j - 1] as u32 - '0' as u32));
        }
    }
    v
}

/// Tokenizes the input from character position `i` to the end.
fn lex_from_exec(s: &str, i: usize, n: usize) -> (r: Result<Vec<Token>, LexError>)
    requires
        i <= s@.len(),
        n == s@.len(),
    ensures
        r matches Ok(ts) ==> lex_from(s@, i as int) == Ok::<Seq<TokenV>, LexError>(
            token_views(ts@),
        ),
        r matches Err(e) ==> lex_from(s@, i as int) == Err::<Seq<TokenV>, LexError>(e),
    decreases s@.len() - i,
{
    if i >= n {
        let v: Vec<Token> = Vec::new();
        proof {
            assert(token_views(v@) =~= Seq::<TokenV>::empty());
        }
        return Ok(v);
    }
    let c = s.get_char(i);
    if char_is_space(c) {
        lex_from_exec(s, i + 1, n)
    } else if c == '=' {
        lex_push(Token::Eq, lex_from_exec(s, i + 1, n))
    } else if c == ',' {
        lex_push(Token::Comma, lex_from_exec(s, i + 1, n))
    } else if c == '(' {
        lex_push(Token::LParen, lex_from_exec(s, i + 1, n))
    } else if c == ')' {
        lex_push(Token::RParen, lex_from_exec(s, i + 1, n))
    } else if c == ':' {
        if i + 1 < n && s.get_char(i + 1) == ':' {
            lex_push(Token::PathSep, lex_from_exec(s, i + 2, n))
        } else {
            Err(LexError { pos: i, kind: LexErrorKind::LonePathColon })
        }
    } else if c == '"' {
        let j = quote_scan_exec(s, i + 1, n);
        if j >= n {
            Err(LexError { pos: i, kind: LexErrorKind::UnterminatedString })
        } else {
            let lit = s.substring_char(i + 1, j).to_owned();
            lex_push(Token::StrLit(lit), lex_from_exec(s, j + 1, n))
        }
    } else if char_is_digit(c) {
        let j = digit_run_exec(s, i, n);
        proof {
            lemma_digit_run_chars(s@, i as int);
            lemma_digit_run_bounds(s@, i as int + 1);
            assert(digit_run(s@, i as int) == digit_run(s@, i as int + 1));
        }
        let v = digits_value_exec(s, i, j);
        if v > 65535 {
            Err(LexError { pos: i, kind: LexErrorKind::CodeOutOfRange })
        } else {
            lex_push(Token::IntLit(v as u16), lex_from_exec(s, j, n))
        }
    } else if char_is_ident_start(c) {
        let j = ident_run_exec(s, i + 1, n);
        let name = s.substring_char(i, j).to_owned();
        lex_push(Token::Ident(name), lex_from_exec(s, j, n))
    } else {
        Err(LexError { pos: i, kind: LexErrorKind::UnexpectedChar })
    }
}

/// Prepends a token to a tokenization result.
fn lex_push(t: Token, rest: Result<Vec<Token>, LexError>) -> (r: Result<Vec<Token>, LexError>)
    ensures
        r matches Ok(ts) ==> (rest matches Ok(rs) && token_views(ts@) == cons_tok(
            t@,
            Ok::<Seq<TokenV>, LexError>(token_views(rs@)),
        )->Ok_0),
        r matches Err(e) ==> rest == Err::<Vec<Token>, LexError>(e),
{
    match rest {
        Err(e) => Err(e),
        Ok(mut rs) => {
            let ghost rs0 = rs@;
            let mut v: Vec<Token> = Vec::new();
            v.push(t);
            v.append(&mut rs);
            proof {
                assert(token_views(v@) =~= seq![v@[0]@] + token_views(rs0));
            }
            Ok(v)
        },
    }
}

/// Tokenizes a whole source text: the tokens in order, or the first
/// tokenization failure.
pub fn lex(s: &str) -> (r: Result<Vec<Token>, LexError>)
    ensures
        r matches Ok(ts) ==> lex_from(s@, 0) == Ok::<Seq<TokenV>, LexError>(token_views(ts@)),
        r matches Err(e) ==> lex_from(s@, 0) == Err::<Seq<TokenV>, LexError>(e),
{
    let n = s.unicode_len();
    lex_from_exec(s, 0, n)
}

} // verus!
