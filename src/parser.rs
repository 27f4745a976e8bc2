use vstd::prelude::*;
use crate::grammar::{
    assignment, block, expect, expr, factor, function_call, function_definition, if_statement,
    kind_at, printf, product_rest, program, return_statement, return_type, simple_expr,
    stat_assignment, statement, statement_list, sum_rest, term, Reason, Walk,
};
use crate::lexer::{lex, C1Lexer};
use crate::message::{describe, diagnostic, push_decimal, recognize};
use crate::token::{kinds, C1Token};

verus! {

/// A recursive-descent recognizer for C1 over a token cursor. Each
/// production consumes exactly the tokens that belong to it, or stops at the
/// first token that does not fit.
pub struct C1Parser<'a>(C1Lexer<'a>);

impl<'a> C1Parser<'a> {
    /// The kinds of all tokens of the source text.
    pub closed spec fn tokens(&self) -> Seq<C1Token> {
        kinds(self.0.lexemes())
    }

    /// The number of tokens consumed so far.
    pub closed spec fn at(&self) -> int {
        self.0.position()
    }

    pub closed spec fn source(&self) -> Seq<char> {
        self.0.source()
    }

    pub closed spec fn wf(&self) -> bool {
        self.0.wf()
    }

    pub open spec fn remaining(&self) -> int {
        self.tokens().len() - self.at()
    }

    /// `after` is this parser once a production has run with result `r`, and
    /// the production's outcome on the grammar is `w`.
    pub open spec fn advanced(&self, after: &Self, r: Result<(), Reason>, w: Walk) -> bool {
        &&& after.wf()
        &&& after.source() == self.source()
        &&& after.tokens() == self.tokens()
        &&& self.at() <= after.at()
        &&& match w {
            Walk::Done(j) => r is Ok && after.at() == j,
            Walk::Fail(k, why) => r == Err::<(), Reason>(why) && after.at() == k,
        }
    }

    /// Decides whether `text` is a C1 program: a sequence of function
    /// definitions and nothing else. On failure the message names the first
    /// token that does not fit, with its line and text, or says that the
    /// input ended too early.
    pub fn parse(text: &str) -> (r: Result<(), String>)
        ensures
            match recognize(text@) {
                Ok(_) => r is Ok,
                Err(m) => r matches Err(e) && e@ == m,
            },
    {
        let mut parser = C1Parser::initialize_parser(text);
        match parser.program() {
            Ok(()) => Ok(()),
            Err(why) => Err(parser.error_message_current(why)),
        }
    }

    /// The diagnostic for `reason` at the current token.
    fn error_message_current(&self, reason: Reason) -> (r: String)
        requires
            self.wf(),
        ensures
            r@ == diagnostic(self.source(), lex(self.source()), self.at(), reason),
    {
        let mut m = describe(reason);
        match (self.0.current_line_number(), self.0.current_text()) {
            (Some(line), Some(text)) => {
                m.append(" at line ");
                push_decimal(&mut m, line);
                m.append(" with text: '");
                m.append(text);
                m.append("'");
            },
            _ => {
                m.append(". Reached EOF");
            },
        }
        m
    }

    fn initialize_parser(text: &str) -> (r: C1Parser<'_>)
        ensures
            r.wf(),
            r.source() == text@,
            r.at() == 0,
    {
        C1Parser(C1Lexer::new(text))
    }

    /// Consumes the current token.
    pub fn eat(&mut self)
        requires
            old(self).wf(),
            old(self).at() < old(self).tokens().len(),
        ensures
            final(self).wf(),
            final(self).source() == old(self).source(),
            final(self).tokens() == old(self).tokens(),
            final(self).at() == old(self).at() + 1,
    {
        self.0.eat();
    }

    /// Whether the current token has kind `k`.
    fn current_matches(&self, k: C1Token) -> (r: bool)
        requires
            self.wf(),
        ensures
            r == (kind_at(self.tokens(), self.at()) == Some(k)),
    {
        match self.0.current_token() {
            None => false,
            Some(c) => c == k,
        }
    }

    /// Whether the token after the current one has kind `k`.
    fn next_matches(&self, k: C1Token) -> (r: bool)
        requires
            self.wf(),
        ensures
            r == (kind_at(self.tokens(), self.at() + 1) == Some(k)),
    {
        match self.0.peek_token() {
            None => false,
            Some(c) => c == k,
        }
    }

    /// Consumes the current token if it has kind `k`, and fails otherwise.
    fn check_and_eat_token(&mut self, k: C1Token) -> (r: Result<(), Reason>)
        requires
            old(self).wf(),
        ensures
            old(self).advanced(final(self), r, expect(old(self).tokens(), old(self).at(), k)),
    {
        if self.current_matches(k) {
            self.eat();
            Ok(())
        } else {
            Err(Reason::Expected(k))
        }
    }

    fn return_type(&mut self) -> (r: Result<(), Reason>)
        requires
            old(self).wf(),
        ensures
            old(self).advanced(final(self), r, return_type(old(self).tokens(), old(self).at())),
    {
        match self.0.current_token() {
            Some(C1Token::KwBoolean) => self.check_and_eat_token(C1Token::KwBoolean),
            Some(C1Token::KwFloat) => self.check_and_eat_token(C1Token::KwFloat),
            Some(C1Token::KwInt) => self.check_and_eat_token(C1Token::KwInt),
            Some(C1Token::KwVoid) => self.check_and_eat_token(C1Token::KwVoid),
            _ => Err(Reason::NoType),
        }
    }

    fn function_call(&mut self) -> (r: Result<(), Reason>)
        requires
            old(self).wf(),
        ensures
            old(self).advanced(final(self), r, function_call(old(self).tokens(), old(self).at())),
    {
        self.check_and_eat_token(C1Token::Identifier)?;
        self.check_and_eat_token(C1Token::LeftParenthesis)?;
        self.check_and_eat_token(C1Token::RightParenthesis)
    }
    fn program(&mut self) -> (r: Result<(), Reason>)
        requires
            old(self).wf(),
        ensures
            old(self).advanced(final(self), r, program(old(self).tokens(), old(self).at())),
    {
        loop
            invariant
                self.wf(),
                self.source() == old(self).source(),
                self.tokens() == old(self).tokens(),
                old(self).at() <= self.at() <= self.tokens().len(),
                program(self.tokens(), self.at()) == program(old(self).tokens(), old(self).at()),
            decreases self.remaining(),
        {
            match self.0.current_token() {
                None => return Ok(()),
                Some(_) => self.functiondefinition()?,
            }
        }
    }

    fn functiondefinition(&mut self) -> (r: Result<(), Reason>)
        requires
            old(self).wf(),
        ensures
            old(self).advanced(
                final(self),
                r,
                function_definition(old(self).tokens(), old(self).at()),
            ),
            r is Ok ==> final(self).at() > old(self).at(),
        decreases old(self).remaining(), 19int,
    {
        self.return_type()?;
        self.check_and_eat_token(C1Token::Identifier)?;
        self.check_and_eat_token(C1Token::LeftParenthesis)?;
        self.check_and_eat_token(C1Token::RightParenthesis)?;
        self.check_and_eat_token(C1Token::LeftBrace)?;
        self.statementlist()?;
        self.check_and_eat_token(C1Token::RightBrace)
    }

    fn statementlist(&mut self) -> (r: Result<(), Reason>)
        requires
            old(self).wf(),
        ensures
            old(self).advanced(final(self), r, statement_list(old(self).tokens(), old(self).at())),
        decreases old(self).remaining(), 18int,
    {
        loop
            invariant
                self.wf(),
                self.source() == old(self).source(),
                self.tokens() == old(self).tokens(),
                old(self).at() <= self.at() <= self.tokens().len(),
                statement_list(self.tokens(), self.at()) == statement_list(
                    old(self).tokens(),
                    old(self).at(),
                ),
            decreases self.remaining(),
        {
            if self.current_matches(C1Token::LeftBrace) || self.current_matches(C1Token::KwIf)
                || self.current_matches(C1Token::KwReturn) || self.current_matches(
                C1Token::KwPrintf,
            ) || self.current_matches(C1Token::Identifier) {
                self.block()?;
            } else {
                return Ok(());
            }
        }
    }

    fn block(&mut self) -> (r: Result<(), Reason>)
        requires
            old(self).wf(),
        ensures
            old(self).advanced(final(self), r, block(old(self).tokens(), old(self).at())),
            r is Ok ==> final(self).at() > old(self).at(),
        decreases old(self).remaining(), 17int,
    {
        if self.current_matches(C1Token::LeftBrace) {
            self.check_and_eat_token(C1Token::LeftBrace)?;
            self.statementlist()?;
            self.check_and_eat_token(C1Token::RightBrace)
        } else {
            self.statement()
        }
    }

    fn statement(&mut self) -> (r: Result<(), Reason>)
        requires
            old(self).wf(),
        ensures
            old(self).advanced(final(self), r, statement(old(self).tokens(), old(self).at())),
            r is Ok ==> final(self).at() > old(self).at(),
        decreases old(self).remaining(), 16int,
    {
        match self.0.current_token() {
            Some(C1Token::KwIf) => self.ifstatement(),
            Some(C1Token::KwReturn) => {
                self.returnstatement()?;
                self.check_and_eat_token(C1Token::Semicolon)
            },
            Some(C1Token::KwPrintf) => {
                self.printf()?;
                self.check_and_eat_token(C1Token::Semicolon)
            },
            Some(C1Token::Identifier) => {
                if self.next_matches(C1Token::Assign) {
                    self.statassignment()?;
                    self.check_and_eat_token(C1Token::Semicolon)
                } else {
                    self.function_call()?;
                    self.check_and_eat_token(C1Token::Semicolon)
                }
            },
            _ => Err(Reason::NoStatement),
        }
    }

    fn ifstatement(&mut self) -> (r: Result<(), Reason>)
        requires
            old(self).wf(),
        ensures
            old(self).advanced(final(self), r, if_statement(old(self).tokens(), old(self).at())),
            r is Ok ==> final(self).at() > old(self).at(),
        decreases old(self).remaining(), 15int,
    {
        self.check_and_eat_token(C1Token::KwIf)?;
        self.check_and_eat_token(C1Token::LeftParenthesis)?;
        self.assignment()?;
        self.check_and_eat_token(C1Token::RightParenthesis)?;
        self.block()
    }

    fn returnstatement(&mut self) -> (r: Result<(), Reason>)
        requires
            old(self).wf(),
        ensures
            old(self).advanced(
                final(self),
                r,
                return_statement(old(self).tokens(), old(self).at()),
            ),
            r is Ok ==> final(self).at() > old(self).at(),
        decreases old(self).remaining(), 15int,
    {
        if self.next_matches(C1Token::Identifier) || self.next_matches(C1Token::ConstInt)
            || self.next_matches(C1Token::ConstFloat) || self.next_matches(
            C1Token::ConstBoolean,
        ) {
            self.check_and_eat_token(C1Token::KwReturn)?;
            self.assignment()
        } else {
            self.check_and_eat_token(C1Token::KwReturn)
        }
    }

    fn printf(&mut self) -> (r: Result<(), Reason>)
        requires
            old(self).wf(),
        ensures
            old(self).advanced(final(self), r, printf(old(self).tokens(), old(self).at())),
            r is Ok ==> final(self).at() > old(self).at(),
        decreases old(self).remaining(), 15int,
    {
        self.check_and_eat_token(C1Token::KwPrintf)?;
        self.check_and_eat_token(C1Token::LeftParenthesis)?;
        self.assignment()?;
        self.check_and_eat_token(C1Token::RightParenthesis)
    }

    fn statassignment(&mut self) -> (r: Result<(), Reason>)
        requires
            old(self).wf(),
        ensures
            old(self).advanced(
                final(self),
                r,
                stat_assignment(old(self).tokens(), old(self).at()),
            ),
            r is Ok ==> final(self).at() > old(self).at(),
        decreases old(self).remaining(), 15int,
    {
        self.check_and_eat_token(C1Token::Identifier)?;
        self.check_and_eat_token(C1Token::Assign)?;
        self.assignment()
    }

    fn assignment(&mut self) -> (r: Result<(), Reason>)
        requires
            old(self).wf(),
        ensures
            old(self).advanced(final(self), r, assignment(old(self).tokens(), old(self).at())),
            r is Ok ==> final(self).at() > old(self).at(),
        decreases old(self).remaining(), 10int,
    {
        if self.current_matches(C1Token::Identifier) && self.next_matches(C1Token::Assign) {
            self.check_and_eat_token(C1Token::Identifier)?;
            self.check_and_eat_token(C1Token::Assign)?;
            self.assignment()
        } else {
            self.expr()
        }
    }

    fn expr(&mut self) -> (r: Result<(), Reason>)
        requires
            old(self).wf(),
        ensures
            old(self).advanced(final(self), r, expr(old(self).tokens(), old(self).at())),
            r is Ok ==> final(self).at() > old(self).at(),
        decreases old(self).remaining(), 9int,
    {
        self.simpexpr()?;
        if self.current_matches(C1Token::Equal) || self.current_matches(C1Token::NotEqual)
            || self.current_matches(C1Token::LessEqual) || self.current_matches(
            C1Token::GreaterEqual,
        ) || self.current_matches(C1Token::Greater) || self.current_matches(C1Token::Less) {
            self.eat();
            self.simpexpr()
        } else {
            Ok(())
        }
    }

    fn simpexpr(&mut self) -> (r: Result<(), Reason>)
        requires
            old(self).wf(),
        ensures
            old(self).advanced(final(self), r, simple_expr(old(self).tokens(), old(self).at())),
            r is Ok ==> final(self).at() > old(self).at(),
        decreases old(self).remaining(), 8int,
    {
        if self.current_matches(C1Token::Minus) {
            self.eat();
        }
        self.term()?;
        loop
            invariant
                self.wf(),
                self.source() == old(self).source(),
                self.tokens() == old(self).tokens(),
                old(self).at() < self.at(),
                sum_rest(self.tokens(), self.at()) == simple_expr(old(self).tokens(), old(self).at()),
            decreases self.remaining(),
        {
            if self.current_matches(C1Token::Plus) || self.current_matches(C1Token::Minus)
                || self.current_matches(C1Token::Or) {
                self.eat();
                self.term()?;
            } else {
                return Ok(());
            }
        }
    }

    fn term(&mut self) -> (r: Result<(), Reason>)
        requires
            old(self).wf(),
        ensures
            old(self).advanced(final(self), r, term(old(self).tokens(), old(self).at())),
            r is Ok ==> final(self).at() > old(self).at(),
        decreases old(self).remaining(), 6int,
    {
        self.factor()?;
        loop
            invariant
                self.wf(),
                self.source() == old(self).source(),
                self.tokens() == old(self).tokens(),
                old(self).at() < self.at(),
                product_rest(self.tokens(), self.at()) == term(old(self).tokens(), old(self).at()),
            decreases self.remaining(),
        {
            if self.current_matches(C1Token::Asterisk) || self.current_matches(C1Token::Slash)
                || self.current_matches(C1Token::And) {
                self.eat();
                self.factor()?;
            } else {
                return Ok(());
            }
        }
    }

    fn factor(&mut self) -> (r: Result<(), Reason>)
        requires
            old(self).wf(),
        ensures
            old(self).advanced(final(self), r, factor(old(self).tokens(), old(self).at())),
            r is Ok ==> final(self).at() > old(self).at(),
        decreases old(self).remaining(), 4int,
    {
        match self.0.current_token() {
            Some(C1Token::ConstInt) => self.check_and_eat_token(C1Token::ConstInt),
            Some(C1Token::ConstFloat) => self.check_and_eat_token(C1Token::ConstFloat),
            Some(C1Token::ConstBoolean) => self.check_and_eat_token(C1Token::ConstBoolean),
            Some(C1Token::Identifier) => {
                if self.next_matches(C1Token::LeftParenthesis) {
                    self.function_call()
                } else {
                    self.check_and_eat_token(C1Token::Identifier)
                }
            },
            Some(C1Token::LeftParenthesis) => {
                self.check_and_eat_token(C1Token::LeftParenthesis)?;
                self.assignment()?;
                self.check_and_eat_token(C1Token::RightParenthesis)
            },
            _ => Err(Reason::NoFactor),
        }
    }
}

} // verus!
