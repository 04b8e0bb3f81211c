//! Tokens of the taxonomy grammar, and the errors the parsers report.

use vstd::prelude::*;

verus! {

/// Mathematical model of a token.
pub ghost enum TokenV {
    Ident(Seq<char>),
    StrLit(Seq<char>),
    IntLit(u16),
    Eq,
    Comma,
    LParen,
    RParen,
    PathSep,
}

/// One token of a definition list: an identifier, a string literal, an
/// integer literal, or one of the punctuation marks `=`, `,`, `(`, `)`, `::`.
pub enum Token {
    Ident(String),
    StrLit(String),
    IntLit(u16),
    Eq,
    Comma,
    LParen,
    RParen,
    PathSep,
}

impl View for Token {
    type V = TokenV;

    open spec fn view(&self) -> TokenV {
        match self {
            Token::Ident(s) => TokenV::Ident(s@),
            Token::StrLit(s) => TokenV::StrLit(s@),
            Token::IntLit(n) => TokenV::IntLit(*n),
            Token::Eq => TokenV::Eq,
            Token::Comma => TokenV::Comma,
            Token::LParen => TokenV::LParen,
            Token::RParen => TokenV::RParen,
            Token::PathSep => TokenV::PathSep,
        }
    }
}

/// The sequence of token models underlying a token vector.
pub open spec fn token_views(ts: Seq<Token>) -> Seq<TokenV> {
    ts.map_values(|t: Token| t@)
}

/// The construct a parser was looking for when it found something else.
#[derive(Clone, Copy, Debug, PartialEq, Eq, Structural)]
pub enum Expected {
    /// The identifier that opens an entry.
    EntryName,
    /// The `=` after an entry's identifier.
    EqSign,
    /// The `(` opening a kind entry's triple.
    OpenParen,
    /// The string literal giving a kind's message.
    MessageLit,
    /// The `,` after the message literal.
    CommaAfterMessage,
    /// The integer literal giving a kind's code.
    CodeLit,
    /// The `,` after the code literal.
    CommaAfterCode,
    /// The string literal giving a kind's description.
    DescriptionLit,
    /// The `)` closing a kind entry's triple.
    CloseParen,
    /// The `,` separating two kind entries.
    EntrySeparator,
    /// An identifier of a kind-reference path.
    PathSegment,
}

/// A malformed entry, reported at the offending token's position together
/// with the construct that was expected there.
#[derive(Clone, Copy, Debug, PartialEq, Eq, Structural)]
pub struct GrammarError {
    /// Index of the offending token; equal to the input length when the
    /// input ended too early.
    pub pos: usize,
    /// What the grammar requires at that position.
    pub expected: Expected,
}

} // verus!
