//! Grammar parsing: a kind list is one or more `Ident = ( Str , Int , Str )`
//! entries separated by commas (trailing comma optional); an error list is
//! zero or more `Ident = TypePath` entries with optional comma separators.

use vstd::prelude::*;
use crate::token::{Token, TokenV, token_views, Expected, GrammarError};
use crate::model::{KindDef, KindDefV, ErrorDef, ErrorDefV, kind_views, error_views};

verus! {

/// The position a grammar error reports for the token slot `p`: the slot
/// itself, or the input length when the input ended before it.
pub open spec fn pos_at(ts: Seq<TokenV>, p: int) -> usize {
    if p < ts.len() {
        p as usize
    } else {
        ts.len() as usize
    }
}

/// What parsing one kind entry at token position `i` yields: the entry's
/// definition (the entry spans exactly nine tokens), or the first grammar
/// error.
pub open spec fn kind_entry_at(ts: Seq<TokenV>, i: int) -> Result<KindDefV, GrammarError> {
    if !(0 <= i && i < ts.len() && ts[i] is Ident) {
        Err(GrammarError { pos: pos_at(ts, i), expected: Expected::EntryName })
    } else if !(i + 1 < ts.len() && ts[i + 1] is Eq) {
        Err(GrammarError { pos: pos_at(ts, i + 1), expected: Expected::EqSign })
    } else if !(i + 2 < ts.len() && ts[i + 2] is LParen) {
        Err(GrammarError { pos: pos_at(ts, i + 2), expected: Expected::OpenParen })
    } else if !(i + 3 < ts.len() && ts[i + 3] is StrLit) {
        Err(GrammarError { pos: pos_at(ts, i + 3), expected: Expected::MessageLit })
    } else if !(i + 4 < ts.len() && ts[i + 4] is Comma) {
        Err(GrammarError { pos: pos_at(ts, i + 4), expected: Expected::CommaAfterMessage })
    } else if !(i + 5 < ts.len() && ts[i + 5] is IntLit) {
        Err(GrammarError { pos: pos_at(ts, i + 5), expected: Expected::CodeLit })
    } else if !(i + 6 < ts.len() && ts[i + 6] is Comma) {
        Err(GrammarError { pos: pos_at(ts, i + 6), expected: Expected::CommaAfterCode })
    } else if !(i + 7 < ts.len() && ts[i + 7] is StrLit) {
        Err(GrammarError { pos: pos_at(ts, i + 7), expected: Expected::DescriptionLit })
    } else if !(i + 8 < ts.len() && ts[i + 8] is RParen) {
        Err(GrammarError { pos: pos_at(ts, i + 8), expected: Expected::CloseParen })
    } else {
        Ok(
            KindDefV {
                name: ts[i]->Ident_0,
                message: ts[i + 3]->StrLit_0,
                code: ts[i + 5]->IntLit_0,
                description: ts[i + 7]->StrLit_0,
            },
        )
    }
}

/// What parsing the kind entries from token position `i` to the end
/// yields: the definitions in input order, or the first grammar error.
/// Position `i` stands at the start of an entry or, after a trailing
/// comma, at the end of the input.
pub open spec fn kind_list_from(ts: Seq<TokenV>, i: int) -> Result<Seq<KindDefV>, GrammarError>
    decreases ts.len() - i,
    when 0 <= i
{
    if i >= ts.len() {
        Ok(Seq::empty())
    } else {
        match kind_entry_at(ts, i) {
            Err(e) => Err(e),
            Ok(d) => {
                if i + 9 >= ts.len() {
                    Ok(seq![d])
                } else if ts[i + 9] is Comma {
                    match kind_list_from(ts, i + 10) {
                        Err(e) => Err(e),
                        Ok(rest) => Ok(seq![d] + rest),
                    }
                } else {
                    Err(
                        GrammarError {
                            pos: (i + 9) as usize,
                            expected: Expected::EntrySeparator,
                        },
                    )
                }
            },
        }
    }
}

/// What parsing a whole kind list yields. The grammar requires at least
/// one kind entry, so the empty input is itself a grammar error; a list
/// that starts is parsed by `kind_list_from`.
pub open spec fn kind_list(ts: Seq<TokenV>) -> Result<Seq<KindDefV>, GrammarError> {
    if ts.len() == 0 {
        Err(GrammarError { pos: 0, expected: Expected::EntryName })
    } else {
        kind_list_from(ts, 0)
    }
}

/// What parsing the trailing `:: Ident` repetitions of a type path at
/// position `i` yields, given the path text `acc` read so far: the full
/// path text and the position after it, or a grammar error.
pub open spec fn path_rest(ts: Seq<TokenV>, i: int, acc: Seq<char>) -> Result<
    (Seq<char>, int),
    GrammarError,
>
    decreases ts.len() - i,
    when 0 <= i
{
    if i < ts.len() && ts[i] is PathSep {
        if i + 1 < ts.len() && ts[i + 1] is Ident {
            path_rest(ts, i + 2, acc + "::"@ + ts[i + 1]->Ident_0)
        } else {
            Err(GrammarError { pos: pos_at(ts, i + 1), expected: Expected::PathSegment })
        }
    } else {
        Ok((acc, i))
    }
}

/// What parsing a type path (`Ident (:: Ident)*`) at position `i` yields:
/// the path text and the position after it, or a grammar error.
pub open spec fn path_at(ts: Seq<TokenV>, i: int) -> Result<(Seq<char>, int), GrammarError> {
    if 0 <= i && i < ts.len() && ts[i] is Ident {
        path_rest(ts, i + 1, ts[i]->Ident_0)
    } else {
        Err(GrammarError { pos: pos_at(ts, i), expected: Expected::PathSegment })
    }
}

/// A successfully parsed path ends no earlier than one token after its
/// start and no later than the input's end.
proof fn lemma_path_rest_bounds(ts: Seq<TokenV>, i: int, acc: Seq<char>)
    requires
        0 <= i <= ts.len(),
    ensures
        path_rest(ts, i, acc) matches Ok(r) ==> i <= r.1 <= ts.len(),
    decreases ts.len() - i,
{
    if i < ts.len() && ts[i] is PathSep && i + 1 < ts.len() && ts[i + 1] is Ident {
        lemma_path_rest_bounds(ts, i + 2, acc + "::"@ + ts[i + 1]->Ident_0);
    }
}

/// A successfully parsed path spans at least one token.
proof fn lemma_path_at_bounds(ts: Seq<TokenV>, i: int)
    requires
        0 <= i <= ts.len(),
    ensures
        path_at(ts, i) matches Ok(r) ==> i + 1 <= r.1 <= ts.len(),
{
    if i < ts.len() && ts[i] is Ident {
        lemma_path_rest_bounds(ts, i + 1, ts[i]->Ident_0);
    }
}

/// What parsing an error list from token position `i` to the end yields:
/// the definitions in input order, or the first grammar error. A comma
/// after an entry is consumed when present and is otherwise optional.
pub open spec fn error_list_from(ts: Seq<TokenV>, i: int) -> Result<Seq<ErrorDefV>, GrammarError>
    decreases ts.len() - i,
    when 0 <= i <= ts.len()
    via error_list_from_dec
{
    if i >= ts.len() {
        Ok(Seq::empty())
    } else if !(ts[i] is Ident) {
        Err(GrammarError { pos: i as usize, expected: Expected::EntryName })
    } else if !(i + 1 < ts.len() && ts[i + 1] is Eq) {
        Err(GrammarError { pos: pos_at(ts, i + 1), expected: Expected::EqSign })
    } else {
        match path_at(ts, i + 2) {
            Err(e) => Err(e),
            Ok(r) => {
                let d = ErrorDefV { name: ts[i]->Ident_0, kind_path: r.0 };
                let k = if r.1 < ts.len() && ts[r.1] is Comma {
                    r.1 + 1
                } else {
                    r.1
                };
                match error_list_from(ts, k) {
                    Err(e) => Err(e),
                    Ok(rest) => Ok(seq![d] + rest),
                }
            },
        }
    }
}

#[via_fn]
proof fn error_list_from_dec(ts: Seq<TokenV>, i: int) {
    if 0 <= i && i < ts.len() && ts[i] is Ident && i + 1 < ts.len() && ts[i + 1] is Eq {
        lemma_path_at_bounds(ts, i + 2);
    }
}

/// Parses one kind entry at token position `i`.
fn parse_kind_entry(ts: &Vec<Token>, i: usize) -> (r: Result<KindDef, GrammarError>)
    requires
        i <= ts@.len(),
    ensures
        r matches Ok(d) ==> i + 9 <= ts@.len() && kind_entry_at(token_views(ts@), i as int)
            == Ok::<KindDefV, GrammarError>(d@),
        r matches Err(e) ==> kind_entry_at(token_views(ts@), i as int) == Err::<
            KindDefV,
            GrammarError,
        >(e),
{
    let n = ts.len();
    if i >= n {
        return Err(GrammarError { pos: n, expected: Expected::EntryName });
    }
    let name: String = match &ts[i] {
        Token::Ident(s) => s.clone(),
        _ => {
            return Err(GrammarError { pos: i, expected: Expected::EntryName });
        },
    };
    let j1 = i + 1;
    if j1 >= n {
        return Err(GrammarError { pos: n, expected: Expected::EqSign });
    }
    match &ts[j1] {
        Token::Eq => {},
        _ => {
            return Err(GrammarError { pos: j1, expected: Expected::EqSign });
        },
    }
    let j2 = j1 + 1;
    if j2 >= n {
        return Err(GrammarError { pos: n, expected: Expected::OpenParen });
    }
    match &ts[j2] {
        Token::LParen => {},
        _ => {
            return Err(GrammarError { pos: j2, expected: Expected::OpenParen });
        },
    }
    let j3 = j2 + 1;
    if j3 >= n {
        return Err(GrammarError { pos: n, expected: Expected::MessageLit });
    }
    let message: String = match &ts[j3] {
        Token::StrLit(s) => s.clone(),
        _ => {
            return Err(GrammarError { pos: j3, expected: Expected::MessageLit });
        },
    };
    let j4 = j3 + 1;
    if j4 >= n {
        return Err(GrammarError { pos: n, expected: Expected::CommaAfterMessage });
    }
    match &ts[j4] {
        Token::Comma => {},
        _ => {
            return Err(GrammarError { pos: j4, expected: Expected::CommaAfterMessage });
        },
    }
    let j5 = j4 + 1;
    if j5 >= n {
        return Err(GrammarError { pos: n, expected: Expected::CodeLit });
    }
    let code: u16 = match &ts[j5] {
        Token::IntLit(c) => *c,
        _ => {
            return Err(GrammarError { pos: j5, expected: Expected::CodeLit });
        },
    };
    let j6 = j5 + 1;
    if j6 >= n {
        return Err(GrammarError { pos: n, expected: Expected::CommaAfterCode });
    }
    match &ts[j6] {
        Token::Comma => {},
        _ => {
            return Err(GrammarError { pos: j6, expected: Expected::CommaAfterCode });
        },
    }
    let j7 = j6 + 1;
    if j7 >= n {
        return Err(GrammarError { pos: n, expected: Expected::DescriptionLit });
    }
    let description: String = match &ts[j7] {
        Token::StrLit(s) => s.clone(),
        _ => {
            return Err(GrammarError { pos: j7, expected: Expected::DescriptionLit });
        },
    };
    let j8 = j7 + 1;
    if j8 >= n {
        return Err(GrammarError { pos: n, expected: Expected::CloseParen });
    }
    match &ts[j8] {
        Token::RParen => {},
        _ => {
            return Err(GrammarError { pos: j8, expected: Expected::CloseParen });
        },
    }
    Ok(KindDef { name, message, code, description })
}

/// Parses a kind list from token position `i` to the end of the input.
fn parse_kinds_from(ts: &Vec<Token>, i: usize) -> (r: Result<Vec<KindDef>, GrammarError>)
    requires
        i <= ts@.len(),
    ensures
        r matches Ok(ds) ==> kind_list_from(token_views(ts@), i as int) == Ok::<
            Seq<KindDefV>,
            GrammarError,
        >(kind_views(ds@)),
        r matches Err(e) ==> kind_list_from(token_views(ts@), i as int) == Err::<
            Seq<KindDefV>,
            GrammarError,
        >(e),
    decreases ts@.len() - i,
{
    let n = ts.len();
    if i >= n {
        let v: Vec<KindDef> = Vec::new();
        proof {
            assert(kind_views(v@) =~= Seq::<KindDefV>::empty());
        }
        return Ok(v);
    }
    let d = match parse_kind_entry(ts, i) {
        Ok(d) => d,
        Err(e) => {
            return Err(e);
        },
    };
    let j = i + 9;
    if j >= n {
        let mut v: Vec<KindDef> = Vec::new();
        v.push(d);
        proof {
            assert(kind_views(v@) =~= seq![v@[0]@]);
        }
        Ok(v)
    } else if matches!(&ts[j], Token::Comma) {
        match parse_kinds_from(ts, j + 1) {
            Err(e) => Err(e),
            Ok(mut rest) => {
                let ghost rest0 = rest@;
                let mut v: Vec<KindDef> = Vec::new();
                v.push(d);
                v.append(&mut rest);
                proof {
                    assert(kind_views(v@) =~= seq![v@[0]@] + kind_views(rest0));
                }
                Ok(v)
            },
        }
    } else {
        Err(GrammarError { pos: j, expected: Expected::EntrySeparator })
    }
}

/// Parses a complete kind list: kind entries separated by commas, with an
/// optional trailing comma. The grammar requires at least one entry, so
/// the empty input is a grammar error.
pub fn parse_kinds(ts: &Vec<Token>) -> (r: Result<Vec<KindDef>, GrammarError>)
    ensures
        r matches Ok(ds) ==> kind_list(token_views(ts@)) == Ok::<
            Seq<KindDefV>,
            GrammarError,
        >(kind_views(ds@)),
        r matches Err(e) ==> kind_list(token_views(ts@)) == Err::<
            Seq<KindDefV>,
            GrammarError,
        >(e),
{
    if ts.len() == 0 {
        return Err(GrammarError { pos: 0, expected: Expected::EntryName });
    }
    parse_kinds_from(ts, 0)
}

/// Parses the trailing `:: Ident` repetitions of a type path, extending the
/// path text accumulated so far.
fn parse_path_rest(ts: &Vec<Token>, i: usize, acc: String) -> (r: Result<
    (String, usize),
    GrammarError,
>)
    requires
        i <= ts@.len(),
    ensures
        r matches Ok(p) ==> i <= p.1 <= ts@.len() && path_rest(token_views(ts@), i as int, acc@)
            == Ok::<(Seq<char>, int), GrammarError>((p.0@, p.1 as int)),
        r matches Err(e) ==> path_rest(token_views(ts@), i as int, acc@) == Err::<
            (Seq<char>, int),
            GrammarError,
        >(e),
    decreases ts@.len() - i,
{
    let n = ts.len();
    if i < n && matches!(&ts[i], Token::PathSep) {
        let j = i + 1;
        if j >= n {
            return Err(GrammarError { pos: n, expected: Expected::PathSegment });
        }
        match &ts[j] {
            Token::Ident(s) => {
                let mut acc2 = acc;
                acc2.append("::");
                acc2.append(s.as_str());
                parse_path_rest(ts, j + 1, acc2)
            },
            _ => Err(GrammarError { pos: j, expected: Expected::PathSegment }),
        }
    } else {
        Ok((acc, i))
    }
}

/// Parses a type path `Ident (:: Ident)*` starting at token position `i`.
fn parse_path(ts: &Vec<Token>, i: usize) -> (r: Result<(String, usize), GrammarError>)
    requires
        i <= ts@.len(),
    ensures
        r matches Ok(p) ==> i + 1 <= p.1 <= ts@.len() && path_at(token_views(ts@), i as int)
            == Ok::<(Seq<char>, int), GrammarError>((p.0@, p.1 as int)),
        r matches Err(e) ==> path_at(token_views(ts@), i as int) == Err::<
            (Seq<char>, int),
            GrammarError,
        >(e),
{
    let n = ts.len();
    if i >= n {
        return Err(GrammarError { pos: n, expected: Expected::PathSegment });
    }
    match &ts[i] {
        Token::Ident(s) => parse_path_rest(ts, i + 1, s.clone()),
        _ => Err(GrammarError { pos: i, expected: Expected::PathSegment }),
    }
}

/// Parses an error list from token position `i` to the end of the input.
fn parse_errors_from(ts: &Vec<Token>, i: usize) -> (r: Result<Vec<ErrorDef>, GrammarError>)
    requires
        i <= ts@.len(),
    ensures
        r matches Ok(ds) ==> error_list_from(token_views(ts@), i as int) == Ok::<
            Seq<ErrorDefV>,
            GrammarError,
        >(error_views(ds@)),
        r matches Err(e) ==> error_list_from(token_views(ts@), i as int) == Err::<
            Seq<ErrorDefV>,
            GrammarError,
        >(e),
    decreases ts@.len() - i,
{
    let n = ts.len();
    if i >= n {
        let v: Vec<ErrorDef> = Vec::new();
        proof {
            assert(error_views(v@) =~= Seq::<ErrorDefV>::empty());
        }
        return Ok(v);
    }
    let name: String = match &ts[i] {
        Token::Ident(s) => s.clone(),
        _ => {
            return Err(GrammarError { pos: i, expected: Expected::EntryName });
        },
    };
    let j1 = i + 1;
    if j1 >= n {
        return Err(GrammarError { pos: n, expected: Expected::EqSign });
    }
    match &ts[j1] {
        Token::Eq => {},
        _ => {
            return Err(GrammarError { pos: j1, expected: Expected::EqSign });
        },
    }
    let p = match parse_path(ts, j1 + 1) {
        Ok(p) => p,
        Err(e) => {
            return Err(e);
        },
    };
    let (path, j) = p;
    let k = if j < n && matches!(&ts[j], Token::Comma) {
        j + 1
    } else {
        j
    };
    match parse_errors_from(ts, k) {
        Err(e) => Err(e),
        Ok(mut rest) => {
            let ghost rest0 = rest@;
            let d = ErrorDef { name, kind_path: path };
            let mut v: Vec<ErrorDef> = Vec::new();
            v.push(d);
            v.append(&mut rest);
            proof {
                assert(error_views(v@) =~= seq![v@[0]@] + error_views(rest0));
            }
            Ok(v)
        },
    }
}

/// Parses a complete error list: error entries with optional comma
/// separators; the empty input is the empty list.
pub fn parse_errors(ts: &Vec<Token>) -> (r: Result<Vec<ErrorDef>, GrammarError>)
    ensures
        r matches Ok(ds) ==> error_list_from(token_views(ts@), 0) == Ok::<
            Seq<ErrorDefV>,
            GrammarError,
        >(error_views(ds@)),
        r matches Err(e) ==> error_list_from(token_views(ts@), 0) == Err::<
            Seq<ErrorDefV>,
            GrammarError,
        >(e),
{
    parse_errors_from(ts, 0)
}

} // verus!

