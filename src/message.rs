use vstd::prelude::*;
use crate::grammar::{program, Reason, Walk};
use crate::lexer::{lex, token_text};
use crate::token::{kinds, C1Token, Lexeme};

verus! {

pub open spec fn digit_char(d: int) -> char {
    if d == 0 {
        '0'
    } else if d == 1 {
        '1'
    } else if d == 2 {
        '2'
    } else if d == 3 {
        '3'
    } else if d == 4 {
        '4'
    } else if d == 5 {
        '5'
    } else if d == 6 {
        '6'
    } else if d == 7 {
        '7'
    } else if d == 8 {
        '8'
    } else {
        '9'
    }
}

/// The decimal digits of `n`, most significant first, without leading zeros.
pub open spec fn decimal(n: nat) -> Seq<char>
    decreases n,
{
    if n < 10 {
        seq![digit_char(n as int)]
    } else {
        decimal(n / 10).push(digit_char((n % 10) as int))
    }
}

/// How a token kind is named in a diagnostic.
pub open spec fn symbol_text(k: C1Token) -> Seq<char> {
    match k {
        C1Token::KwBoolean => "'bool'"@,
        C1Token::KwFloat => "'float'"@,
        C1Token::KwInt => "'int'"@,
        C1Token::KwVoid => "'void'"@,
        C1Token::KwIf => "'if'"@,
        C1Token::KwReturn => "'return'"@,
        C1Token::KwPrintf => "'printf'"@,
        C1Token::ConstInt => "an integer literal"@,
        C1Token::ConstFloat => "a float literal"@,
        C1Token::ConstBoolean => "a boolean literal"@,
        C1Token::Identifier => "an identifier"@,
        C1Token::LeftParenthesis => "'('"@,
        C1Token::RightParenthesis => "')'"@,
        C1Token::LeftBrace => "'{'"@,
        C1Token::RightBrace => "'}'"@,
        C1Token::Semicolon => "';'"@,
        C1Token::Assign => "'='"@,
        C1Token::Equal => "'=='"@,
        C1Token::NotEqual => "'!='"@,
        C1Token::LessEqual => "'<='"@,
        C1Token::GreaterEqual => "'>='"@,
        C1Token::Greater => "'>'"@,
        C1Token::Less => "'<'"@,
        C1Token::Plus => "'+'"@,
        C1Token::Minus => "'-'"@,
        C1Token::Asterisk => "'*'"@,
        C1Token::Slash => "'/'"@,
        C1Token::And => "'&&'"@,
        C1Token::Or => "'||'"@,
        C1Token::Unknown => "an unknown token"@,
    }
}

/// The reason part of a diagnostic.
pub open spec fn reason_text(why: Reason) -> Seq<char> {
    match why {
        Reason::Expected(k) => "expected "@ + symbol_text(k),
        Reason::NoType => "expected a type"@,
        Reason::NoStatement => "expected a statement"@,
        Reason::NoFactor => "expected an operand"@,
    }
}

/// The diagnostic for a failure at token index `k` of the tokens `ls` of the
/// text `s`: the reason, then the token's line and text, or the end of input
/// when there is no token there.
pub open spec fn diagnostic(s: Seq<char>, ls: Seq<Lexeme>, k: int, why: Reason) -> Seq<char> {
    if 0 <= k < ls.len() {
        reason_text(why) + " at line "@ + decimal(ls[k].line as nat) + " with text: '"@
            + token_text(s, ls[k]) + "'"@
    } else {
        reason_text(why) + ". Reached EOF"@
    }
}

/// What recognizing the source text `s` yields: success when its tokens form
/// a program, and otherwise the diagnostic for the first token that does not
/// fit.
pub open spec fn recognize(s: Seq<char>) -> Result<(), Seq<char>> {
    match program(kinds(lex(s)), 0) {
        Walk::Done(_) => Ok(()),
        Walk::Fail(k, why) => Err(diagnostic(s, lex(s), k, why)),
    }
}

fn digit_str(d: usize) -> (r: &'static str)
    requires
        d < 10,
    ensures
        r@ == seq![digit_char(d as int)],
{
    proof {
        reveal_strlit("0");
        reveal_strlit("1");
        reveal_strlit("2");
        reveal_strlit("3");
        reveal_strlit("4");
        reveal_strlit("5");
        reveal_strlit("6");
        reveal_strlit("7");
        reveal_strlit("8");
        reveal_strlit("9");
    }
    if d == 0 {
        "0"
    } else if d == 1 {
        "1"
    } else if d == 2 {
        "2"
    } else if d == 3 {
        "3"
    } else if d == 4 {
        "4"
    } else if d == 5 {
        "5"
    } else if d == 6 {
        "6"
    } else if d == 7 {
        "7"
    } else if d == 8 {
        "8"
    } else {
        "9"
    }
}

/// Appends the decimal digits of `n` to `out`.
pub fn push_decimal(out: &mut String, n: usize)
    ensures
        final(out)@ == old(out)@ + decimal(n as nat),
    decreases n,
{
    if n >= 10 {
        push_decimal(out, n / 10);
    }
    out.append(digit_str(n % 10));
    proof {
        if n >= 10 {
            assert(decimal(n as nat) == decimal((n / 10) as nat).push(digit_char((n % 10) as int)));
        }
    }
    assert(final(out)@ =~= old(out)@ + decimal(n as nat));
}

/// How a token kind is named in a diagnostic.
pub fn symbol(k: C1Token) -> (r: &'static str)
    ensures
        r@ == symbol_text(k),
{
    match k {
        C1Token::KwBoolean => "'bool'",
        C1Token::KwFloat => "'float'",
        C1Token::KwInt => "'int'",
        C1Token::KwVoid => "'void'",
        C1Token::KwIf => "'if'",
        C1Token::KwReturn => "'return'",
        C1Token::KwPrintf => "'printf'",
        C1Token::ConstInt => "an integer literal",
        C1Token::ConstFloat => "a float literal",
        C1Token::ConstBoolean => "a boolean literal",
        C1Token::Identifier => "an identifier",
        C1Token::LeftParenthesis => "'('",
        C1Token::RightParenthesis => "')'",
        C1Token::LeftBrace => "'{'",
        C1Token::RightBrace => "'}'",
        C1Token::Semicolon => "';'",
        C1Token::Assign => "'='",
        C1Token::Equal => "'=='",
        C1Token::NotEqual => "'!='",
        C1Token::LessEqual => "'<='",
        C1Token::GreaterEqual => "'>='",
        C1Token::Greater => "'>'",
        C1Token::Less => "'<'",
        C1Token::Plus => "'+'",
        C1Token::Minus => "'-'",
        C1Token::Asterisk => "'*'",
        C1Token::Slash => "'/'",
        C1Token::And => "'&&'",
        C1Token::Or => "'||'",
        C1Token::Unknown => "an unknown token",
    }
}

/// The reason part of a diagnostic.
pub fn describe(why: Reason) -> (r: String)
    ensures
        r@ == reason_text(why),
{
    match why {
        Reason::Expected(k) => {
            let mut m = String::from_str("expected ");
            m.append(symbol(k));
            m
        },
        Reason::NoType => String::from_str("expected a type"),
        Reason::NoStatement => String::from_str("expected a statement"),
        Reason::NoFactor => String::from_str("expected an operand"),
    }
}

} // verus!
