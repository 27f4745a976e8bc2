use vstd::prelude::*;
use crate::token::C1Token;

verus! {

/// Why recognition stopped at a token.
#[derive(Clone, Copy, Debug, PartialEq, Eq, Structural)]
pub enum Reason {
    /// A token of this kind had to come next.
    Expected(C1Token),
    /// A function definition has to start with a type name.
    NoType,
    /// No statement starts with this token.
    NoStatement,
    /// No operand of an expression starts with this token.
    NoFactor,
}

/// The outcome of a production started at some position of a token
/// sequence: it matched and the next unread position is `Done`'s, or it failed
/// at the position given, for the reason given.
pub enum Walk {
    Done(int),
    Fail(int, Reason),
}

pub open spec fn kind_at(t: Seq<C1Token>, i: int) -> Option<C1Token> {
    if 0 <= i < t.len() {
        Some(t[i])
    } else {
        None
    }
}

/// Consumes one token of kind `k`.
pub open spec fn expect(t: Seq<C1Token>, i: int, k: C1Token) -> Walk {
    if kind_at(t, i) == Some(k) {
        Walk::Done(i + 1)
    } else {
        Walk::Fail(i, Reason::Expected(k))
    }
}

/// Consumes one token of kind `k` after `w`, if `w` matched.
pub open spec fn expect_after(t: Seq<C1Token>, w: Walk, k: C1Token) -> Walk {
    match w {
        Walk::Done(j) => expect(t, j, k),
        Walk::Fail(..) => w,
    }
}

pub open spec fn is_return_type(k: C1Token) -> bool {
    k == C1Token::KwBoolean || k == C1Token::KwFloat || k == C1Token::KwInt || k == C1Token::KwVoid
}

/// The tokens that can start a block.
pub open spec fn starts_block(k: C1Token) -> bool {
    k == C1Token::LeftBrace || k == C1Token::KwIf || k == C1Token::KwReturn || k
        == C1Token::KwPrintf || k == C1Token::Identifier
}

/// The tokens after `return` that make it return a value.
pub open spec fn starts_return_value(k: C1Token) -> bool {
    k == C1Token::Identifier || k == C1Token::ConstInt || k == C1Token::ConstFloat || k
        == C1Token::ConstBoolean
}

pub open spec fn is_relop(k: C1Token) -> bool {
    k == C1Token::Equal || k == C1Token::NotEqual || k == C1Token::LessEqual || k
        == C1Token::GreaterEqual || k == C1Token::Greater || k == C1Token::Less
}

pub open spec fn is_addop(k: C1Token) -> bool {
    k == C1Token::Plus || k == C1Token::Minus || k == C1Token::Or
}

pub open spec fn is_mulop(k: C1Token) -> bool {
    k == C1Token::Asterisk || k == C1Token::Slash || k == C1Token::And
}

pub open spec fn is_literal(k: C1Token) -> bool {
    k == C1Token::ConstInt || k == C1Token::ConstFloat || k == C1Token::ConstBoolean
}

/// type ::= "bool" | "float" | "int" | "void"
pub open spec fn return_type(t: Seq<C1Token>, i: int) -> Walk {
    match kind_at(t, i) {
        Some(k) => if is_return_type(k) { Walk::Done(i + 1) } else { Walk::Fail(i, Reason::NoType) },
        None => Walk::Fail(i, Reason::NoType),
    }
}

/// function_call ::= identifier "(" ")"
pub open spec fn function_call(t: Seq<C1Token>, i: int) -> Walk {
    expect_after(
        t,
        expect_after(t, expect(t, i, C1Token::Identifier), C1Token::LeftParenthesis),
        C1Token::RightParenthesis,
    )
}

// In the productions below, a comparison of a position with an earlier one
// (`i < j <= t.len()`) always holds, since no production moves backwards or
// past the end; it is there only so that the termination check sees it.

/// program ::= { functiondefinition } up to the end of the tokens
pub open spec fn program(t: Seq<C1Token>, i: int) -> Walk
    decreases t.len() - i, 20int,
{
    if i < 0 || i >= t.len() {
        Walk::Done(i)
    } else {
        match function_definition(t, i) {
            Walk::Done(j) => if i < j <= t.len() { program(t, j) } else { Walk::Done(j) },
            f => f,
        }
    }
}

/// functiondefinition ::= type identifier "(" ")" "{" statementlist "}"
pub open spec fn function_definition(t: Seq<C1Token>, i: int) -> Walk
    decreases t.len() - i, 19int,
{
    let head = expect_after(
        t,
        expect_after(
            t,
            expect_after(t, expect_after(t, return_type(t, i), C1Token::Identifier), C1Token::LeftParenthesis),
            C1Token::RightParenthesis,
        ),
        C1Token::LeftBrace,
    );
    match head {
        Walk::Done(j) => if 0 <= i < j { expect_after(t, statement_list(t, j), C1Token::RightBrace) } else { head },
        f => f,
    }
}

/// statementlist ::= { block }, as long as the next token can start a block
pub open spec fn statement_list(t: Seq<C1Token>, i: int) -> Walk
    decreases t.len() - i, 18int,
{
    match kind_at(t, i) {
        Some(k) => if starts_block(k) {
            match block(t, i) {
                Walk::Done(j) => if i < j <= t.len() { statement_list(t, j) } else { Walk::Done(j) },
                f => f,
            }
        } else {
            Walk::Done(i)
        },
        None => Walk::Done(i),
    }
}

/// block ::= "{" statementlist "}" | statement
pub open spec fn block(t: Seq<C1Token>, i: int) -> Walk
    decreases t.len() - i, 17int,
{
    if kind_at(t, i) == Some(C1Token::LeftBrace) {
        expect_after(t, statement_list(t, i + 1), C1Token::RightBrace)
    } else {
        statement(t, i)
    }
}

/// statement ::= ifstatement | returnstatement ";" | printf ";"
///             | statassignment ";" | functioncall ";"
pub open spec fn statement(t: Seq<C1Token>, i: int) -> Walk
    decreases t.len() - i, 16int,
{
    match kind_at(t, i) {
        Some(C1Token::KwIf) => if_statement(t, i),
        Some(C1Token::KwReturn) => expect_after(t, return_statement(t, i), C1Token::Semicolon),
        Some(C1Token::KwPrintf) => expect_after(t, printf(t, i), C1Token::Semicolon),
        Some(C1Token::Identifier) => if kind_at(t, i + 1) == Some(C1Token::Assign) {
            expect_after(t, stat_assignment(t, i), C1Token::Semicolon)
        } else {
            expect_after(t, function_call(t, i), C1Token::Semicolon)
        },
        _ => Walk::Fail(i, Reason::NoStatement),
    }
}

/// ifstatement ::= "if" "(" assignment ")" block
pub open spec fn if_statement(t: Seq<C1Token>, i: int) -> Walk
    decreases t.len() - i, 15int,
{
    match expect_after(t, expect(t, i, C1Token::KwIf), C1Token::LeftParenthesis) {
        Walk::Done(j) => if 0 <= i < j {
            match expect_after(t, assignment(t, j), C1Token::RightParenthesis) {
                Walk::Done(m) => if m > i { block(t, m) } else { Walk::Done(m) },
                f => f,
            }
        } else {
            Walk::Done(j)
        },
        f => f,
    }
}

/// returnstatement ::= "return" [ assignment ], with a value only when the
/// token after `return` is an identifier or a literal
pub open spec fn return_statement(t: Seq<C1Token>, i: int) -> Walk
    decreases t.len() - i, 15int,
{
    let valued = match kind_at(t, i + 1) {
        Some(k) => starts_return_value(k),
        None => false,
    };
    match expect(t, i, C1Token::KwReturn) {
        Walk::Done(j) => if valued && 0 <= i < j { assignment(t, j) } else { Walk::Done(j) },
        f => f,
    }
}

/// printf ::= "printf" "(" assignment ")"
pub open spec fn printf(t: Seq<C1Token>, i: int) -> Walk
    decreases t.len() - i, 15int,
{
    match expect_after(t, expect(t, i, C1Token::KwPrintf), C1Token::LeftParenthesis) {
        Walk::Done(j) => if 0 <= i < j {
            expect_after(t, assignment(t, j), C1Token::RightParenthesis)
        } else {
            Walk::Done(j)
        },
        f => f,
    }
}

/// statassignment ::= identifier "=" assignment
pub open spec fn stat_assignment(t: Seq<C1Token>, i: int) -> Walk
    decreases t.len() - i, 15int,
{
    match expect_after(t, expect(t, i, C1Token::Identifier), C1Token::Assign) {
        Walk::Done(j) => if 0 <= i < j { assignment(t, j) } else { Walk::Done(j) },
        f => f,
    }
}

/// assignment ::= identifier "=" assignment | expr, told apart by the token
/// after the identifier
pub open spec fn assignment(t: Seq<C1Token>, i: int) -> Walk
    decreases t.len() - i, 10int,
{
    if 0 <= i && kind_at(t, i) == Some(C1Token::Identifier) && kind_at(t, i + 1) == Some(
        C1Token::Assign,
    ) {
        assignment(t, i + 2)
    } else {
        expr(t, i)
    }
}

/// expr ::= simpexpr [ relop simpexpr ]
pub open spec fn expr(t: Seq<C1Token>, i: int) -> Walk
    decreases t.len() - i, 9int,
{
    match simple_expr(t, i) {
        Walk::Done(j) => match kind_at(t, j) {
            Some(k) => if is_relop(k) && 0 <= i <= j { simple_expr(t, j + 1) } else { Walk::Done(j) },
            None => Walk::Done(j),
        },
        f => f,
    }
}

/// simpexpr ::= [ "-" ] term { ( "+" | "-" | "||" ) term }
pub open spec fn simple_expr(t: Seq<C1Token>, i: int) -> Walk
    decreases t.len() - i, 8int,
{
    let start = if kind_at(t, i) == Some(C1Token::Minus) { i + 1 } else { i };
    match term(t, start) {
        Walk::Done(j) => if 0 <= i <= j <= t.len() { sum_rest(t, j) } else { Walk::Done(j) },
        f => f,
    }
}

/// The `{ ( "+" | "-" | "||" ) term }` part of simpexpr.
pub open spec fn sum_rest(t: Seq<C1Token>, i: int) -> Walk
    decreases t.len() - i, 7int,
{
    match kind_at(t, i) {
        Some(k) => if is_addop(k) && 0 <= i {
            match term(t, i + 1) {
                Walk::Done(j) => if i < j <= t.len() { sum_rest(t, j) } else { Walk::Done(j) },
                f => f,
            }
        } else {
            Walk::Done(i)
        },
        None => Walk::Done(i),
    }
}

/// term ::= factor { ( "*" | "/" | "&&" ) factor }
pub open spec fn term(t: Seq<C1Token>, i: int) -> Walk
    decreases t.len() - i, 6int,
{
    match factor(t, i) {
        Walk::Done(j) => if 0 <= i <= j <= t.len() { product_rest(t, j) } else { Walk::Done(j) },
        f => f,
    }
}

/// The `{ ( "*" | "/" | "&&" ) factor }` part of term.
pub open spec fn product_rest(t: Seq<C1Token>, i: int) -> Walk
    decreases t.len() - i, 5int,
{
    match kind_at(t, i) {
        Some(k) => if is_mulop(k) && 0 <= i {
            match factor(t, i + 1) {
                Walk::Done(j) => if i < j <= t.len() { product_rest(t, j) } else { Walk::Done(j) },
                f => f,
            }
        } else {
            Walk::Done(i)
        },
        None => Walk::Done(i),
    }
}

/// factor ::= literal | functioncall | identifier | "(" assignment ")"
pub open spec fn factor(t: Seq<C1Token>, i: int) -> Walk
    decreases t.len() - i, 4int,
{
    match kind_at(t, i) {
        Some(C1Token::Identifier) => if kind_at(t, i + 1) == Some(C1Token::LeftParenthesis) {
            function_call(t, i)
        } else {
            Walk::Done(i + 1)
        },
        Some(C1Token::LeftParenthesis) => if 0 <= i {
            expect_after(t, assignment(t, i + 1), C1Token::RightParenthesis)
        } else {
            Walk::Done(i)
        },
        Some(k) => if is_literal(k) { Walk::Done(i + 1) } else { Walk::Fail(i, Reason::NoFactor) },
        None => Walk::Fail(i, Reason::NoFactor),
    }
}

} // verus!
