use vstd::prelude::*;
use crate::token::{C1Token, Lexeme};
use vstd::std_specs::iter::IteratorSpec;

verus! {

pub open spec fn is_digit(c: char) -> bool {
    '0' <= c && c <= '9'
}

pub open spec fn is_word_start(c: char) -> bool {
    ('a' <= c && c <= 'z') || ('A' <= c && c <= 'Z') || c == '_'
}

pub open spec fn is_word_char(c: char) -> bool {
    is_word_start(c) || is_digit(c)
}

/// Blanks that separate tokens; a line break is handled on its own.
pub open spec fn is_blank(c: char) -> bool {
    c == ' ' || c == '\t' || c == '\r'
}

/// The first position at or after `i` that holds no identifier character.
pub open spec fn word_end(s: Seq<char>, i: int) -> int
    decreases s.len() - i,
{
    if 0 <= i < s.len() && is_word_char(s[i]) {
        word_end(s, i + 1)
    } else {
        i
    }
}

/// The first position at or after `i` that holds no decimal digit.
pub open spec fn digits_end(s: Seq<char>, i: int) -> int
    decreases s.len() - i,
{
    if 0 <= i < s.len() && is_digit(s[i]) {
        digits_end(s, i + 1)
    } else {
        i
    }
}

/// The first position at or after `i` that holds a line break, or the end.
pub open spec fn line_end(s: Seq<char>, i: int) -> int
    decreases s.len() - i,
{
    if 0 <= i < s.len() && s[i] != '\n' {
        line_end(s, i + 1)
    } else {
        i
    }
}

/// The position just after the first `*/` that starts at or after `i`, or
/// `None` when there is none.
pub open spec fn comment_close(s: Seq<char>, i: int) -> Option<int>
    decreases s.len() - i,
{
    if i < 0 || i + 1 >= s.len() {
        None
    } else if s[i] == '*' && s[i + 1] == '/' {
        Some(i + 2)
    } else {
        comment_close(s, i + 1)
    }
}

/// The number of line breaks among the positions `i..j`.
pub open spec fn line_breaks(s: Seq<char>, i: int, j: int) -> int
    decreases j - i,
{
    if i >= j {
        0
    } else {
        line_breaks(s, i, j - 1) + if s[j - 1] == '\n' { 1int } else { 0int }
    }
}

/// The kind of a maximal run of identifier characters: a keyword, a boolean
/// literal, or an identifier.
pub open spec fn word_kind(w: Seq<char>) -> C1Token {
    if w == "bool"@ {
        C1Token::KwBoolean
    } else if w == "float"@ {
        C1Token::KwFloat
    } else if w == "int"@ {
        C1Token::KwInt
    } else if w == "void"@ {
        C1Token::KwVoid
    } else if w == "if"@ {
        C1Token::KwIf
    } else if w == "return"@ {
        C1Token::KwReturn
    } else if w == "printf"@ {
        C1Token::KwPrintf
    } else if w == "true"@ || w == "false"@ {
        C1Token::ConstBoolean
    } else {
        C1Token::Identifier
    }
}

/// The operator or punctuation token that starts with `c`, followed by `d`
/// when there is a next character, with the number of characters it takes.
pub open spec fn symbol_kind(c: char, d: Option<char>) -> (C1Token, int) {
    if c == '=' {
        if d == Some('=') { (C1Token::Equal, 2) } else { (C1Token::Assign, 1) }
    } else if c == '!' {
        if d == Some('=') { (C1Token::NotEqual, 2) } else { (C1Token::Unknown, 1) }
    } else if c == '<' {
        if d == Some('=') { (C1Token::LessEqual, 2) } else { (C1Token::Less, 1) }
    } else if c == '>' {
        if d == Some('=') { (C1Token::GreaterEqual, 2) } else { (C1Token::Greater, 1) }
    } else if c == '&' {
        if d == Some('&') { (C1Token::And, 2) } else { (C1Token::Unknown, 1) }
    } else if c == '|' {
        if d == Some('|') { (C1Token::Or, 2) } else { (C1Token::Unknown, 1) }
    } else if c == '+' {
        (C1Token::Plus, 1)
    } else if c == '-' {
        (C1Token::Minus, 1)
    } else if c == '*' {
        (C1Token::Asterisk, 1)
    } else if c == '/' {
        (C1Token::Slash, 1)
    } else if c == '(' {
        (C1Token::LeftParenthesis, 1)
    } else if c == ')' {
        (C1Token::RightParenthesis, 1)
    } else if c == '{' {
        (C1Token::LeftBrace, 1)
    } else if c == '}' {
        (C1Token::RightBrace, 1)
    } else if c == ';' {
        (C1Token::Semicolon, 1)
    } else {
        (C1Token::Unknown, 1)
    }
}

/// What the text holds at a position: something to skip (blanks, a line
/// break, a comment), which moves to `next` and to line `line`, or a token
/// of kind `kind` that ends at `next`.
pub enum Scan {
    Skip { next: int, line: int },
    Emit { kind: C1Token, next: int },
}

pub open spec fn next_char(s: Seq<char>, i: int) -> Option<char> {
    if 0 <= i < s.len() { Some(s[i]) } else { None }
}

pub open spec fn digit_at(s: Seq<char>, i: int) -> bool {
    0 <= i < s.len() && is_digit(s[i])
}

/// One step of the lexer at position `i < s.len()`, on line `line`.
pub open spec fn scan(s: Seq<char>, i: int, line: int) -> Scan {
    let c = s[i];
    let d = next_char(s, i + 1);
    if c == '\n' {
        Scan::Skip { next: i + 1, line: line + 1 }
    } else if is_blank(c) {
        Scan::Skip { next: i + 1, line }
    } else if c == '/' && d == Some('/') {
        Scan::Skip { next: line_end(s, i + 2), line }
    } else if c == '/' && d == Some('*') {
        match comment_close(s, i + 2) {
            Some(e) => Scan::Skip { next: e, line: line + line_breaks(s, i, e) },
            // an unterminated comment is one unknown token up to the end
            None => Scan::Emit { kind: C1Token::Unknown, next: s.len() as int },
        }
    } else if is_word_start(c) {
        let e = word_end(s, i + 1);
        Scan::Emit { kind: word_kind(s.subrange(i, e)), next: e }
    } else if is_digit(c) {
        let e = digits_end(s, i + 1);
        if next_char(s, e) == Some('.') && digit_at(s, e + 1) {
            Scan::Emit { kind: C1Token::ConstFloat, next: digits_end(s, e + 2) }
        } else {
            Scan::Emit { kind: C1Token::ConstInt, next: e }
        }
    } else if c == '.' && digit_at(s, i + 1) {
        Scan::Emit { kind: C1Token::ConstFloat, next: digits_end(s, i + 2) }
    } else {
        let (kind, width) = symbol_kind(c, d);
        Scan::Emit { kind, next: i + width }
    }
}

/// The tokens of `s` from position `i` on, where position `i` is on line
/// `line`. Every step moves forward; the comparison only makes that visible
/// to the termination check.
pub open spec fn lex_from(s: Seq<char>, i: int, line: int) -> Seq<Lexeme>
    decreases s.len() - i,
{
    if i < 0 || i >= s.len() {
        Seq::empty()
    } else {
        match scan(s, i, line) {
            Scan::Skip { next, line: l } => if i < next <= s.len() {
                lex_from(s, next, l)
            } else {
                Seq::empty()
            },
            Scan::Emit { kind, next } => if i < next <= s.len() {
                let rest = lex_from(s, next, line);
                seq![Lexeme { kind, line: line as usize, start: i as usize, end: next as usize }]
                    + rest
            } else {
                Seq::empty()
            },
        }
    }
}

/// The tokens of a whole source text; its first line is line 1.
pub open spec fn lex(s: Seq<char>) -> Seq<Lexeme> {
    lex_from(s, 0, 1)
}


/// One step of the lexer, as computed.
enum Step {
    Skip { next: usize, line: usize },
    Emit { kind: C1Token, next: usize },
}

fn digit(c: char) -> (r: bool)
    ensures
        r == is_digit(c),
{
    '0' <= c && c <= '9'
}

fn word_start(c: char) -> (r: bool)
    ensures
        r == is_word_start(c),
{
    ('a' <= c && c <= 'z') || ('A' <= c && c <= 'Z') || c == '_'
}

fn word_char(c: char) -> (r: bool)
    ensures
        r == is_word_char(c),
{
    word_start(c) || digit(c)
}

fn find_word_end(s: &Vec<char>, i: usize) -> (e: usize)
    requires
        i <= s@.len(),
    ensures
        e == word_end(s@, i as int),
        i <= e <= s@.len(),
{
    let mut j: usize = i;
    while j < s.len() && word_char(s[j])
        invariant
            i <= j <= s@.len(),
            word_end(s@, j as int) == word_end(s@, i as int),
        decreases s@.len() - j,
    {
        j = j + 1;
    }
    j
}

fn find_digits_end(s: &Vec<char>, i: usize) -> (e: usize)
    requires
        i <= s@.len(),
    ensures
        e == digits_end(s@, i as int),
        i <= e <= s@.len(),
{
    let mut j: usize = i;
    while j < s.len() && digit(s[j])
        invariant
            i <= j <= s@.len(),
            digits_end(s@, j as int) == digits_end(s@, i as int),
        decreases s@.len() - j,
    {
        j = j + 1;
    }
    j
}

fn find_line_end(s: &Vec<char>, i: usize) -> (e: usize)
    requires
        i <= s@.len(),
    ensures
        e == line_end(s@, i as int),
        i <= e <= s@.len(),
{
    let mut j: usize = i;
    while j < s.len() && s[j] != '\n'
        invariant
            i <= j <= s@.len(),
            line_end(s@, j as int) == line_end(s@, i as int),
        decreases s@.len() - j,
    {
        j = j + 1;
    }
    j
}

fn find_comment_close(s: &Vec<char>, i: usize) -> (r: Option<usize>)
    requires
        i <= s@.len(),
    ensures
        match r {
            Some(e) => comment_close(s@, i as int) == Some(e as int) && i + 2 <= e <= s@.len(),
            None => comment_close(s@, i as int) is None,
        },
{
    let mut j: usize = i;
    while j < s.len() && j + 1 < s.len()
        invariant
            i <= j <= s@.len(),
            comment_close(s@, j as int) == comment_close(s@, i as int),
        decreases s@.len() - j,
    {
        if s[j] == '*' && s[j + 1] == '/' {
            return Some(j + 2);
        }
        j = j + 1;
    }
    None
}

fn count_line_breaks(s: &Vec<char>, i: usize, j: usize) -> (n: usize)
    requires
        i <= j <= s@.len(),
    ensures
        n == line_breaks(s@, i as int, j as int),
        n <= j - i,
{
    let mut n: usize = 0;
    let mut k: usize = i;
    while k < j
        invariant
            i <= k <= j <= s@.len(),
            n == line_breaks(s@, i as int, k as int),
            n <= k - i,
        decreases j - k,
    {
        if s[k] == '\n' {
            n = n + 1;
        }
        k = k + 1;
    }
    n
}

/// Whether the characters `start..end` of `s` spell `w`.
fn spells(s: &Vec<char>, start: usize, end: usize, w: &str) -> (r: bool)
    requires
        start <= end <= s@.len(),
    ensures
        r == (s@.subrange(start as int, end as int) == w@),
{
    let n = w.unicode_len();
    if end - start != n {
        return false;
    }
    let mut k: usize = 0;
    while k < n
        invariant
            n == w@.len(),
            end - start == n,
            start <= end <= s@.len(),
            k <= n,
            forall|m: int| 0 <= m < k ==> s@[start + m] == w@[m],
        decreases n - k,
    {
        if s[start + k] != w.get_char(k) {
            assert(s@.subrange(start as int, end as int)[k as int] != w@[k as int]);
            return false;
        }
        k = k + 1;
    }
    assert(s@.subrange(start as int, end as int) =~= w@);
    true
}

fn classify_word(s: &Vec<char>, start: usize, end: usize) -> (k: C1Token)
    requires
        start <= end <= s@.len(),
    ensures
        k == word_kind(s@.subrange(start as int, end as int)),
{
    if spells(s, start, end, "bool") {
        C1Token::KwBoolean
    } else if spells(s, start, end, "float") {
        C1Token::KwFloat
    } else if spells(s, start, end, "int") {
        C1Token::KwInt
    } else if spells(s, start, end, "void") {
        C1Token::KwVoid
    } else if spells(s, start, end, "if") {
        C1Token::KwIf
    } else if spells(s, start, end, "return") {
        C1Token::KwReturn
    } else if spells(s, start, end, "printf") {
        C1Token::KwPrintf
    } else if spells(s, start, end, "true") || spells(s, start, end, "false") {
        C1Token::ConstBoolean
    } else {
        C1Token::Identifier
    }
}

fn classify_symbol(c: char, d: Option<char>) -> (r: (C1Token, usize))
    ensures
        symbol_kind(c, d) == (r.0, r.1 as int),
        d is None ==> r.1 == 1,
        1 <= r.1 <= 2,
{
    if c == '=' {
        if d == Some('=') { (C1Token::Equal, 2) } else { (C1Token::Assign, 1) }
    } else if c == '!' {
        if d == Some('=') { (C1Token::NotEqual, 2) } else { (C1Token::Unknown, 1) }
    } else if c == '<' {
        if d == Some('=') { (C1Token::LessEqual, 2) } else { (C1Token::Less, 1) }
    } else if c == '>' {
        if d == Some('=') { (C1Token::GreaterEqual, 2) } else { (C1Token::Greater, 1) }
    } else if c == '&' {
        if d == Some('&') { (C1Token::And, 2) } else { (C1Token::Unknown, 1) }
    } else if c == '|' {
        if d == Some('|') { (C1Token::Or, 2) } else { (C1Token::Unknown, 1) }
    } else if c == '+' {
        (C1Token::Plus, 1)
    } else if c == '-' {
        (C1Token::Minus, 1)
    } else if c == '*' {
        (C1Token::Asterisk, 1)
    } else if c == '/' {
        (C1Token::Slash, 1)
    } else if c == '(' {
        (C1Token::LeftParenthesis, 1)
    } else if c == ')' {
        (C1Token::RightParenthesis, 1)
    } else if c == '{' {
        (C1Token::LeftBrace, 1)
    } else if c == '}' {
        (C1Token::RightBrace, 1)
    } else if c == ';' {
        (C1Token::Semicolon, 1)
    } else {
        (C1Token::Unknown, 1)
    }
}


/// Computes `scan` at position `i`. Past the last character no line number is
/// read again, so a skip that reaches the end keeps the line as it was.
fn scan_at(s: &Vec<char>, i: usize, line: usize) -> (r: Step)
    requires
        i < s@.len(),
        1 <= line <= i + 1,
    ensures
        match r {
            Step::Skip { next, line: l } => {
                &&& i < next <= s@.len()
                &&& scan(s@, i as int, line as int) matches Scan::Skip { next: n, line: m }
                &&& n == next
                &&& (next < s@.len() ==> m == l && 1 <= l <= next + 1)
            },
            Step::Emit { kind, next } => {
                &&& i < next <= s@.len()
                &&& scan(s@, i as int, line as int) == Scan::Emit { kind, next: next as int }
            },
        },
{
    let c = s[i];
    let d = if s.len() - i > 1 { Some(s[i + 1]) } else { None };
    if c == '\n' {
        let l = if s.len() - i > 1 { line + 1 } else { line };
        Step::Skip { next: i + 1, line: l }
    } else if c == ' ' || c == '\t' || c == '\r' {
        Step::Skip { next: i + 1, line }
    } else if c == '/' && d == Some('/') {
        Step::Skip { next: find_line_end(s, i + 2), line }
    } else if c == '/' && d == Some('*') {
        match find_comment_close(s, i + 2) {
            Some(e) => {
                let n = count_line_breaks(s, i, e);
                let l = if e < s.len() { line + n } else { line };
                Step::Skip { next: e, line: l }
            },
            None => Step::Emit { kind: C1Token::Unknown, next: s.len() },
        }
    } else if word_start(c) {
        let e = find_word_end(s, i + 1);
        Step::Emit { kind: classify_word(s, i, e), next: e }
    } else if digit(c) {
        let e = find_digits_end(s, i + 1);
        if e < s.len() && s.len() - e > 1 && s[e] == '.' && digit(s[e + 1]) {
            Step::Emit { kind: C1Token::ConstFloat, next: find_digits_end(s, e + 2) }
        } else {
            Step::Emit { kind: C1Token::ConstInt, next: e }
        }
    } else if c == '.' && s.len() - i > 1 && digit(s[i + 1]) {
        Step::Emit { kind: C1Token::ConstFloat, next: find_digits_end(s, i + 2) }
    } else {
        let (kind, width) = classify_symbol(c, d);
        Step::Emit { kind, next: i + width }
    }
}

/// Splits `s` into its tokens, skipping blanks, line breaks and comments.
pub fn tokenize(s: &Vec<char>) -> (r: Vec<Lexeme>)
    ensures
        r@ == lex(s@),
{
    let mut out: Vec<Lexeme> = Vec::new();
    let mut i: usize = 0;
    let mut line: usize = 1;
    while i < s.len()
        invariant
            i <= s@.len(),
            1 <= line <= i + 1,
            out@ + lex_from(s@, i as int, line as int) == lex(s@),
        decreases s@.len() - i,
    {
        let step = scan_at(s, i, line);
        match step {
            Step::Skip { next, line: l } => {
                let ghost m = match scan(s@, i as int, line as int) {
                    Scan::Skip { line: m, .. } => m,
                    _ => 0,
                };
                assert(lex_from(s@, i as int, line as int) == lex_from(s@, next as int, m));
                if next == s.len() {
                    assert(lex_from(s@, next as int, m) =~= Seq::<Lexeme>::empty());
                    assert(lex_from(s@, next as int, line as int) =~= Seq::<Lexeme>::empty());
                }
                i = next;
                line = if next < s.len() { l } else { line };
            },
            Step::Emit { kind, next } => {
                let lx = Lexeme { kind, line, start: i, end: next };
                let ghost rest = lex_from(s@, next as int, line as int);
                assert(lex_from(s@, i as int, line as int) == seq![lx] + rest);
                assert(out@.push(lx) + rest =~= out@ + (seq![lx] + rest));
                out.push(lx);
                i = next;
            },
        }
    }
    assert(out@ + lex_from(s@, i as int, line as int) =~= out@);
    out
}


/// The characters of `text`, in order.
fn chars_of(text: &str) -> (r: Vec<char>)
    ensures
        r@ == text@,
{
    broadcast use vstd::string::axiom_spec_iter, vstd::string::next_postcondition;

    let mut out: Vec<char> = Vec::new();
    let mut it = text.chars();
    loop
        invariant
            IteratorSpec::remaining(&it) == text@.skip(out@.len() as int),
            out@ == text@.take(out@.len() as int),
            out@.len() <= text@.len(),
        decreases text@.len() - out@.len(),
    {
        match it.next() {
            Some(c) => {
                assert(text@.skip(out@.len() as int).drop_first() =~= text@.skip(out@.len() + 1int));
                assert(text@.take(out@.len() + 1int) =~= out@.push(c));
                out.push(c);
            },
            None => {
                assert(out@ =~= text@);
                return out;
            },
        }
    }
}

/// A cursor over the tokens of a source text: the current token is the first
/// one not yet consumed, and the cursor only moves forward.
pub struct C1Lexer<'a> {
    text: &'a str,
    lexemes: Vec<Lexeme>,
    pos: usize,
}

impl<'a> C1Lexer<'a> {
    /// The source text.
    pub closed spec fn source(&self) -> Seq<char> {
        self.text@
    }

    /// All tokens of the source text, consumed or not.
    pub closed spec fn lexemes(&self) -> Seq<Lexeme> {
        self.lexemes@
    }

    /// The number of tokens consumed so far.
    pub closed spec fn position(&self) -> int {
        self.pos as int
    }

    pub open spec fn wf(&self) -> bool {
        &&& self.lexemes() == lex(self.source())
        &&& self.source().len() <= usize::MAX
        &&& 0 <= self.position() <= self.lexemes().len()
    }

    /// The kind of the token at index `i`, if there is one.
    pub open spec fn kind_at(&self, i: int) -> Option<C1Token> {
        if 0 <= i < self.lexemes().len() {
            Some(self.lexemes()[i].kind)
        } else {
            None
        }
    }

    pub fn new(text: &'a str) -> (r: Self)
        ensures
            r.wf(),
            r.source() == text@,
            r.position() == 0,
    {
        let chars = chars_of(text);
        assert(chars@.len() == chars.len());
        let lexemes = tokenize(&chars);
        C1Lexer { text, lexemes, pos: 0 }
    }

    /// The kind of the current token, or `None` at the end of the input.
    pub fn current_token(&self) -> (r: Option<C1Token>)
        requires
            self.wf(),
        ensures
            r == self.kind_at(self.position()),
    {
        if self.pos < self.lexemes.len() {
            Some(self.lexemes[self.pos].kind)
        } else {
            None
        }
    }

    /// The kind of the token after the current one, if there is one.
    pub fn peek_token(&self) -> (r: Option<C1Token>)
        requires
            self.wf(),
        ensures
            r == self.kind_at(self.position() + 1),
    {
        if self.lexemes.len() - self.pos > 1 {
            Some(self.lexemes[self.pos + 1].kind)
        } else {
            None
        }
    }

    /// The line of the current token.
    pub fn current_line_number(&self) -> (r: Option<usize>)
        requires
            self.wf(),
        ensures
            r == (if self.position() < self.lexemes().len() {
                Some(self.lexemes()[self.position()].line)
            } else {
                None::<usize>
            }),
    {
        if self.pos < self.lexemes.len() {
            Some(self.lexemes[self.pos].line)
        } else {
            None
        }
    }

    /// The source text of the current token.
    pub fn current_text(&self) -> (r: Option<&'a str>)
        requires
            self.wf(),
        ensures
            match r {
                Some(t) => self.position() < self.lexemes().len() && t@ == token_text(
                    self.source(),
                    self.lexemes()[self.position()],
                ),
                None => self.position() == self.lexemes().len(),
            },
    {
        if self.pos < self.lexemes.len() {
            let lx = self.lexemes[self.pos];
            proof {
                lemma_lex_bounds(self.text@, 0, 1);
                assert(self.lexemes@[self.pos as int].start < self.lexemes@[self.pos as int].end);
            }
            Some(self.text.substring_char(lx.start, lx.end))
        } else {
            None
        }
    }

    /// Consumes the current token.
    pub fn eat(&mut self)
        requires
            old(self).wf(),
            old(self).position() < old(self).lexemes().len(),
        ensures
            final(self).wf(),
            final(self).source() == old(self).source(),
            final(self).position() == old(self).position() + 1,
    {
        let n = self.lexemes.len();
        assert(self.pos < n);
        self.pos = self.pos + 1;
    }
}

/// The characters that a token covers.
pub open spec fn token_text(s: Seq<char>, l: Lexeme) -> Seq<char> {
    s.subrange(l.start as int, l.end as int)
}

/// Every token covers at least one character, all of them within `0..n`.
pub open spec fn within(ls: Seq<Lexeme>, n: int) -> bool {
    forall|k: int| 0 <= k < ls.len() ==> #[trigger] ls[k].start < ls[k].end && ls[k].end <= n
}

pub proof fn lemma_lex_bounds(s: Seq<char>, i: int, line: int)
    requires
        s.len() <= usize::MAX,
    ensures
        within(lex_from(s, i, line), s.len() as int),
    decreases s.len() - i,
{
    if 0 <= i < s.len() {
        match scan(s, i, line) {
            Scan::Skip { next, line: l } => {
                if i < next <= s.len() {
                    lemma_lex_bounds(s, next, l);
                }
            },
            Scan::Emit { kind, next } => {
                if i < next <= s.len() {
                    lemma_lex_bounds(s, next, line);
                    let rest = lex_from(s, next, line);
                    let lx = Lexeme { kind, line: line as usize, start: i as usize, end: next as usize };
                    let all = lex_from(s, i, line);
                    assert(all == seq![lx] + rest);
                    assert forall|k: int| 0 <= k < all.len() implies #[trigger] all[k].start < all[k].end
                        && all[k].end <= s.len() by {
                        if k > 0 {
                            assert(all[k] == rest[k - 1]);
                        }
                    }
                }
            },
        }
    }
}

} // verus!
