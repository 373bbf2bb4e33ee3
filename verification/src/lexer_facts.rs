//! What holds of the lexer on every input.

use vstd::prelude::*;
use crate::charstream::{
    advance,
    class_at,
    continues,
    lemma_run_end,
    lemma_token_end,
    lex,
    lex_from,
    lex_stop,
    literal,
    lone_marker,
    origin,
    token_at,
    token_end,
    Cursor,
};
use crate::token::{TokenClass, TokenView};

verus! {

/// The texts of a sequence of tokens, in a row.
pub open spec fn concat(tokens: Seq<TokenView>) -> Seq<char>
    decreases tokens.len(),
{
    if tokens.len() == 0 {
        Seq::empty()
    } else {
        tokens.first().value + concat(tokens.drop_first())
    }
}

/// The tokens read from a cursor on spell out the input between the cursor
/// and the place where the reading ends, leaving nothing out; and the
/// reading ends at the end of the input or on a lone control marker.
pub proof fn lemma_lex_from_covers(chars: Seq<char>, at: Cursor)
    requires
        at.index <= chars.len(),
    ensures
        at.index <= lex_stop(chars, at).index <= chars.len(),
        concat(lex_from(chars, at)) == chars.subrange(
            at.index as int,
            lex_stop(chars, at).index as int,
        ),
        lex_stop(chars, at).index == chars.len() || lone_marker(chars, lex_stop(chars, at)),
        forall|i: int|
            0 <= i < lex_from(chars, at).len() ==> (#[trigger] lex_from(chars, at)[i]).value.len()
                > 0,
    decreases chars.len() - at.index,
{
    if at.index >= chars.len() || lone_marker(chars, at) {
        assert(chars.subrange(at.index as int, at.index as int) =~= Seq::<char>::empty());
    } else {
        lemma_token_end(chars, at);
        let next = advance(chars, at);
        lemma_lex_from_covers(chars, next);
        let rest = lex_from(chars, next);
        let all = lex_from(chars, at);
        assert(all == seq![token_at(chars, at)] + rest);
        assert(all.first() == token_at(chars, at));
        assert(all.drop_first() =~= rest);
        assert(chars.subrange(at.index as int, next.index as int) + chars.subrange(
            next.index as int,
            lex_stop(chars, at).index as int,
        ) =~= chars.subrange(at.index as int, lex_stop(chars, at).index as int));
        assert forall|i: int| 0 <= i < all.len() implies (#[trigger] all[i]).value.len() > 0 by {
            if i > 0 {
                assert(all[i] == rest[i - 1]);
            }
        }
    }
}

/// Whether the reading of an input ends before its end.
pub open spec fn cut_short(chars: Seq<char>) -> bool {
    lex_stop(chars, origin()).index < chars.len()
}

/// Lexing is total, and the texts of the tokens of an input spell the
/// input out again, character for character, up to the place where the
/// reading ends. That place is the end of the input, unless a lone control
/// marker stands there.
pub proof fn lemma_lex_covers(chars: Seq<char>)
    ensures
        concat(lex(chars)) == chars.take(lex_stop(chars, origin()).index as int),
        cut_short(chars) ==> lone_marker(chars, lex_stop(chars, origin())),
        !cut_short(chars) ==> concat(lex(chars)) == chars,
{
    lemma_lex_from_covers(chars, origin());
    assert(chars.subrange(0, lex_stop(chars, origin()).index as int) =~= chars.take(
        lex_stop(chars, origin()).index as int,
    ));
    if !cut_short(chars) {
        assert(chars.take(chars.len() as int) =~= chars);
    }
}

/// How many more `open` than `close` stand among the first `n` characters.
pub open spec fn depth(chars: Seq<char>, open: char, close: char, n: int) -> int
    decreases n,
{
    if n <= 0 || n > chars.len() {
        0
    } else {
        depth(chars, open, close, n - 1) + if chars[n - 1] == open {
            1int
        } else if chars[n - 1] == close {
            -1int
        } else {
            0int
        }
    }
}

/// Whether `open` and `close` are balanced in an input: no closer comes
/// before its opener, and every opener is closed.
pub open spec fn balanced(chars: Seq<char>, open: char, close: char) -> bool {
    &&& forall|n: int| 0 <= n <= chars.len() ==> #[trigger] depth(chars, open, close, n) >= 0
    &&& depth(chars, open, close, chars.len() as int) == 0
}

/// Whether an `open` stands at `j` that nothing closes before `i`.
pub open spec fn open_since(chars: Seq<char>, open: char, close: char, j: int, i: int) -> bool {
    &&& 0 <= j < i <= chars.len()
    &&& chars[j] == open
    &&& forall|k: int| j < k < i ==> #[trigger] chars[k] != close
}

/// What holds of the cursor wherever the lexer stands: at most one bracket
/// or parenthesis is open, never both, and the one that is open has not been
/// closed since.
pub open spec fn nesting(chars: Seq<char>, at: Cursor, bracket: int, paren: int) -> bool {
    &&& at.index <= chars.len()
    &&& at.brackets <= 1
    &&& at.parens <= 1
    &&& !(at.brackets == 1 && at.parens == 1)
    &&& at.brackets == 1 ==> open_since(chars, '[', ']', bracket, at.index as int)
    &&& at.parens == 1 ==> open_since(chars, '(', ')', paren, at.index as int)
}

/// An opener that nothing closes keeps the depth above the depth before it.
proof fn lemma_depth_open(chars: Seq<char>, open: char, close: char, j: int, i: int)
    requires
        open != close,
        open_since(chars, open, close, j, i),
    ensures
        depth(chars, open, close, i) >= depth(chars, open, close, j) + 1,
    decreases i - j,
{
    if i > j + 1 {
        assert(chars[i - 1] != close);
        lemma_depth_open(chars, open, close, j, i - 1);
    }
}

/// One token on, the nesting still holds.
proof fn lemma_nesting_step(chars: Seq<char>, at: Cursor, bracket: int, paren: int) -> (w: (
    int,
    int,
))
    requires
        nesting(chars, at, bracket, paren),
        at.index < chars.len(),
        !lone_marker(chars, at),
    ensures
        nesting(chars, advance(chars, at), w.0, w.1),
{
    lemma_token_end(chars, at);
    let class = class_at(chars, at);
    let first = chars[at.index as int];
    let end = token_end(chars, at);
    let next = advance(chars, at);
    lemma_run_end(chars, at.index as int + 1, class, at.brackets, at.parens);
    if at.brackets == 1 {
        if first == ']' {
            (bracket, paren)
        } else {
            assert(literal(first, at.brackets, at.parens));
            assert forall|k: int| bracket < k < end implies #[trigger] chars[k] != ']' by {
                if k > at.index {
                    assert(continues(TokenClass::Paragraph, chars[k], at.brackets, at.parens));
                }
            }
            (bracket, paren)
        }
    } else if at.parens == 1 {
        if first == ')' {
            (bracket, paren)
        } else {
            assert(literal(first, at.brackets, at.parens));
            assert forall|k: int| paren < k < end implies #[trigger] chars[k] != ')' by {
                if k > at.index {
                    assert(continues(TokenClass::Paragraph, chars[k], at.brackets, at.parens));
                }
            }
            (bracket, paren)
        }
    } else {
        (at.index as int, at.index as int)
    }
}

/// The nesting holds where the reading ends, and no bracket or parenthesis is
/// open where it ends on a lone control marker.
proof fn lemma_nesting_stop(chars: Seq<char>, at: Cursor, bracket: int, paren: int) -> (w: (
    int,
    int,
))
    requires
        nesting(chars, at, bracket, paren),
    ensures
        nesting(chars, lex_stop(chars, at), w.0, w.1),
        lex_stop(chars, at).index == chars.len() || (lex_stop(chars, at).brackets == 0
            && lex_stop(chars, at).parens == 0),
    decreases chars.len() - at.index,
{
    if at.index >= chars.len() || lone_marker(chars, at) {
        (bracket, paren)
    } else {
        lemma_token_end(chars, at);
        let w = lemma_nesting_step(chars, at, bracket, paren);
        lemma_nesting_stop(chars, advance(chars, at), w.0, w.1)
    }
}

/// The nesting depths of the lexer are never negative and never above one,
/// and each is back at zero where the reading of an input ends, if its
/// brackets, or its parentheses, are balanced.
pub proof fn lemma_nesting(chars: Seq<char>)
    ensures
        0 <= lex_stop(chars, origin()).brackets <= 1,
        0 <= lex_stop(chars, origin()).parens <= 1,
        balanced(chars, '[', ']') ==> lex_stop(chars, origin()).brackets == 0,
        balanced(chars, '(', ')') ==> lex_stop(chars, origin()).parens == 0,
{
    let w = lemma_nesting_stop(chars, origin(), 0, 0);
    let end = lex_stop(chars, origin());
    if end.brackets == 1 {
        lemma_depth_open(chars, '[', ']', w.0, chars.len() as int);
        assert(depth(chars, '[', ']', w.0) >= 0 || !balanced(chars, '[', ']'));
    }
    if end.parens == 1 {
        lemma_depth_open(chars, '(', ')', w.1, chars.len() as int);
        assert(depth(chars, '(', ')', w.1) >= 0 || !balanced(chars, '(', ')'));
    }
}

} // verus!
