use vstd::prelude::*;
use crate::grammar::{assignment, expr, kind_at, program, Walk};
use crate::lexer::{comment_close, is_blank, lex, lex_from, line_end, scan, Scan};
use crate::message::recognize;
use crate::token::{kinds, C1Token};

verus! {

/// Blanks and line breaks from position `i` on give no tokens.
proof fn lemma_blank_suffix(s: Seq<char>, i: int, line: int)
    requires
        forall|k: int| 0 <= k < s.len() ==> is_blank(#[trigger] s[k]) || s[k] == '\n',
    ensures
        lex_from(s, i, line).len() == 0,
    decreases s.len() - i,
{
    if 0 <= i < s.len() {
        let c = s[i];
        assert(is_blank(c) || c == '\n');
        match scan(s, i, line) {
            Scan::Skip { next, line: l } => {
                assert(next == i + 1);
                lemma_blank_suffix(s, next, l);
            },
            Scan::Emit { .. } => {},
        }
    }
}

proof fn lemma_line_end_without_breaks(s: Seq<char>, i: int)
    requires
        0 <= i <= s.len(),
        forall|k: int| 0 <= k < s.len() ==> #[trigger] s[k] != '\n',
    ensures
        line_end(s, i) == s.len(),
    decreases s.len() - i,
{
    if i < s.len() {
        lemma_line_end_without_breaks(s, i + 1);
    }
}

/// A text that is a single `//` comment, with no line break, is a program.
pub proof fn lemma_line_comment_accepted(s: Seq<char>)
    requires
        s.len() >= 2,
        s[0] == '/',
        s[1] == '/',
        forall|k: int| 0 <= k < s.len() ==> #[trigger] s[k] != '\n',
    ensures
        recognize(s) == Ok::<(), Seq<char>>(()),
{
    lemma_line_end_without_breaks(s, 2);
    assert(lex_from(s, s.len() as int, 1).len() == 0);
    assert(lex(s).len() == 0);
    lemma_no_tokens_accepted(s);
}

/// A text that is a single `/* ... */` comment, which may span lines, is a
/// program.
pub proof fn lemma_block_comment_accepted(s: Seq<char>)
    requires
        s.len() >= 2,
        s[0] == '/',
        s[1] == '*',
        comment_close(s, 2) == Some(s.len() as int),
    ensures
        recognize(s) == Ok::<(), Seq<char>>(()),
{
    match scan(s, 0, 1) {
        Scan::Skip { next, line } => {
            assert(lex_from(s, next, line).len() == 0);
        },
        Scan::Emit { .. } => {},
    }
    assert(lex(s).len() == 0);
    lemma_no_tokens_accepted(s);
}

/// A text whose tokens are none at all (it is empty, or holds only blanks,
/// line breaks and comments) is a program: one of zero function
/// definitions.
pub proof fn lemma_no_tokens_accepted(s: Seq<char>)
    requires
        lex(s).len() == 0,
    ensures
        recognize(s) == Ok::<(), Seq<char>>(()),
{
    assert(kinds(lex(s)).len() == 0);
    assert(program(kinds(lex(s)), 0) == Walk::Done(0));
}

/// A text made of blanks and line breaks only, the empty text included, is a
/// program.
pub proof fn lemma_blank_text_accepted(s: Seq<char>)
    requires
        forall|k: int| 0 <= k < s.len() ==> is_blank(#[trigger] s[k]) || s[k] == '\n',
    ensures
        recognize(s) == Ok::<(), Seq<char>>(()),
{
    lemma_blank_suffix(s, 0, 1);
    lemma_no_tokens_accepted(s);
}

/// Recognition depends on the text alone: running it again on the same text
/// gives the same outcome, and on failure the same diagnostic, naming the
/// same line and token text.
pub proof fn lemma_recognize_deterministic(s1: Seq<char>, s2: Seq<char>)
    requires
        s1 == s2,
    ensures
        recognize(s1) == recognize(s2),
{
}

/// An assignment is told apart from an expression by its first two tokens
/// alone: an identifier followed by `=` is consumed and the rest is again an
/// assignment; anything else, `x == y` and `1 + 2` among it, is read as an
/// expression from the same position.
pub proof fn lemma_assignment_factoring(t: Seq<C1Token>, i: int)
    requires
        0 <= i <= t.len(),
    ensures
        kind_at(t, i) == Some(C1Token::Identifier) && kind_at(t, i + 1) == Some(C1Token::Assign)
            ==> assignment(t, i) == assignment(t, i + 2),
        !(kind_at(t, i) == Some(C1Token::Identifier) && kind_at(t, i + 1) == Some(
            C1Token::Assign,
        )) ==> assignment(t, i) == expr(t, i),
{
}

} // verus!
