use vstd::prelude::*;

verus! {

/// The kind of a lexical unit of C1.
#[derive(Clone, Copy, Debug, PartialEq, Eq, Structural)]
pub enum C1Token {
    KwBoolean,
    KwFloat,
    KwInt,
    KwVoid,
    KwIf,
    KwReturn,
    KwPrintf,
    ConstInt,
    ConstFloat,
    ConstBoolean,
    Identifier,
    LeftParenthesis,
    RightParenthesis,
    LeftBrace,
    RightBrace,
    Semicolon,
    Assign,
    Equal,
    NotEqual,
    LessEqual,
    GreaterEqual,
    Greater,
    Less,
    Plus,
    Minus,
    Asterisk,
    Slash,
    And,
    Or,
    /// A character, or a run of them, that starts no token of the language.
    Unknown,
}

/// One token of a source text: its kind, the line it starts on (counted from
/// 1), and the range `start..end` of character positions it covers.
#[derive(Clone, Copy, Debug, PartialEq, Eq, Structural)]
pub struct Lexeme {
    pub kind: C1Token,
    pub line: usize,
    pub start: usize,
    pub end: usize,
}

/// The kinds of a sequence of tokens, in order.
pub open spec fn kinds(ls: Seq<Lexeme>) -> Seq<C1Token> {
    ls.map_values(|l: Lexeme| l.kind)
}

} // verus!
