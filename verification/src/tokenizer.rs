//! The lexer: a byte cursor with predicate-based consumption, and a lazy
//! token producer that turns the byte stream into span-annotated tokens,
//! collecting lexical errors as ordinary token values.

use vstd::prelude::*;
use vstd::slice::slice_to_vec;
use vstd::string::StringSliceAdditionalSpecFns;

use crate::error::LoxError;
use crate::position::Span;
use crate::position::WithSpan;
use crate::position::WithSpanView;
use crate::token::keyword_of;
use crate::token::Token;
use crate::token::TokenView;

verus! {

/// A digit `0` to `9`.
pub open spec fn is_digit(b: u8) -> bool {
    48 <= b <= 57
}

/// An ASCII letter or underscore: a byte that may start an identifier.
pub open spec fn is_ident_start(b: u8) -> bool {
    (65 <= b <= 90) || (97 <= b <= 122) || b == 95
}

/// A byte that may continue an identifier: letter, digit, or underscore.
pub open spec fn is_ident_byte(b: u8) -> bool {
    is_ident_start(b) || is_digit(b)
}

/// An ASCII whitespace byte: space, tab, newline, form feed, or carriage
/// return.
pub open spec fn is_whitespace(b: u8) -> bool {
    b == 32 || b == 9 || b == 10 || b == 12 || b == 13
}

/// The first index at or after `pos` whose byte fails `p`, or `src.len()`
/// if every byte from `pos` on satisfies it.
pub open spec fn seek(src: Seq<u8>, pos: int, p: spec_fn(u8) -> bool) -> int
    decreases src.len() - pos,
{
    if 0 <= pos < src.len() && p(src[pos]) {
        seek(src, pos + 1, p)
    } else {
        pos
    }
}

pub proof fn lemma_seek_bounds(src: Seq<u8>, pos: int, p: spec_fn(u8) -> bool)
    requires
        0 <= pos <= src.len(),
    ensures
        pos <= seek(src, pos, p) <= src.len(),
    decreases src.len() - pos,
{
    if pos < src.len() && p(src[pos]) {
        lemma_seek_bounds(src, pos + 1, p);
    }
}

/// What `seek` found: every byte it passed satisfies `p`, and it stops at
/// the length or at a byte failing `p`.
pub proof fn lemma_seek_props(src: Seq<u8>, pos: int, p: spec_fn(u8) -> bool)
    requires
        0 <= pos <= src.len(),
    ensures
        ({
            let e = seek(src, pos, p);
            &&& pos <= e <= src.len()
            &&& forall|i: int| pos <= i < e ==> p(#[trigger] src[i])
            &&& (e < src.len() ==> !p(src[e]))
        }),
    decreases src.len() - pos,
{
    if pos < src.len() && p(src[pos]) {
        lemma_seek_props(src, pos + 1, p);
    }
}

/// `seek` is pinned down by its characteristic properties: every byte
/// before `end` satisfies `p`, and `end` is the length or fails `p`.
pub proof fn lemma_seek_is(src: Seq<u8>, pos: int, p: spec_fn(u8) -> bool, end: int)
    requires
        0 <= pos <= end <= src.len(),
        forall|i: int| pos <= i < end ==> p(#[trigger] src[i]),
        end == src.len() || !p(src[end]),
    ensures
        seek(src, pos, p) == end,
    decreases end - pos,
{
    if pos < end {
        lemma_seek_is(src, pos + 1, p, end);
    }
}

/// The digit predicate, as a function value shared by specs and proofs.
pub open spec fn digit_pred() -> spec_fn(u8) -> bool {
    |u: u8| is_digit(u)
}

/// The identifier-byte predicate, as a function value.
pub open spec fn ident_pred() -> spec_fn(u8) -> bool {
    |u: u8| is_ident_byte(u)
}

/// Everything but a newline: what a line comment consumes.
pub open spec fn not_newline_pred() -> spec_fn(u8) -> bool {
    |u: u8| u != 10
}

/// Everything but a double quote: what a string literal consumes.
pub open spec fn not_quote_pred() -> spec_fn(u8) -> bool {
    |u: u8| u != 34
}

/// Whether the byte at `pos` is `c`: the probe that decides between a one-
/// and a two-character operator.
pub open spec fn probe(src: Seq<u8>, pos: int, c: u8) -> bool {
    0 <= pos < src.len() && src[pos] == c
}

/// Where a number whose first digit sits just before `pos` ends: a maximal
/// digit run, then, only if a dot is followed by at least one more digit,
/// the dot and a second maximal digit run. A trailing dot is left alone.
pub open spec fn number_end(src: Seq<u8>, pos: int) -> int {
    let d1 = seek(src, pos, digit_pred());
    if d1 < src.len() && src[d1] == 46 && d1 + 1 < src.len() && is_digit(src[d1 + 1]) {
        seek(src, d1 + 1, digit_pred())
    } else {
        d1
    }
}

/// One dispatch step of the lexer, after the byte `v` at `pos - 1` was
/// consumed on line `line`: the token produced (or nothing, for whitespace
/// and comments) and the cursor position after it.
pub open spec fn match_token_spec(src: Seq<u8>, v: u8, pos: int, line: int) -> (
    Option<TokenView>,
    int,
)
    recommends
        1 <= pos <= src.len(),
{
    if is_whitespace(v) {
        (None::<TokenView>, pos)
    } else if v == 61 {
        if probe(src, pos, 61) {
            (Some(TokenView::EqualEqual), pos + 1)
        } else {
            (Some(TokenView::Equal), pos)
        }
    } else if v == 33 {
        if probe(src, pos, 61) {
            (Some(TokenView::BangEqual), pos + 1)
        } else {
            (Some(TokenView::Bang), pos)
        }
    } else if v == 62 {
        if probe(src, pos, 61) {
            (Some(TokenView::GreaterEqual), pos + 1)
        } else {
            (Some(TokenView::Greater), pos)
        }
    } else if v == 60 {
        if probe(src, pos, 61) {
            (Some(TokenView::LessEqual), pos + 1)
        } else {
            (Some(TokenView::Less), pos)
        }
    } else if v == 47 {
        if probe(src, pos, 47) {
            (None::<TokenView>, seek(src, pos + 1, not_newline_pred()))
        } else {
            (Some(TokenView::Slash), pos)
        }
    } else if v == 34 {
        let q = seek(src, pos, not_quote_pred());
        if q < src.len() {
            (Some(TokenView::String(src.subrange(pos, q))), q + 1)
        } else {
            (Some(TokenView::Error(LoxError::UnterminatedStr(line as usize))), q)
        }
    } else if is_ident_start(v) {
        let e = seek(src, pos, ident_pred());
        let text = src.subrange(pos - 1, e);
        match keyword_of(text) {
            Some(k) => (Some(k), e),
            None => (Some(TokenView::Identifier(text)), e),
        }
    } else if is_digit(v) {
        let e = number_end(src, pos);
        (Some(TokenView::Number(src.subrange(pos - 1, e))), e)
    } else if v == 40 {
        (Some(TokenView::LeftParen), pos)
    } else if v == 41 {
        (Some(TokenView::RightParen), pos)
    } else if v == 123 {
        (Some(TokenView::LeftBrace), pos)
    } else if v == 125 {
        (Some(TokenView::RightBrace), pos)
    } else if v == 91 {
        (Some(TokenView::LeftBracket), pos)
    } else if v == 93 {
        (Some(TokenView::RightBracket), pos)
    } else if v == 44 {
        (Some(TokenView::Comma), pos)
    } else if v == 45 {
        (Some(TokenView::Minus), pos)
    } else if v == 43 {
        (Some(TokenView::Plus), pos)
    } else if v == 59 {
        (Some(TokenView::Semicolon), pos)
    } else if v == 42 {
        (Some(TokenView::Star), pos)
    } else if v == 46 {
        (Some(TokenView::Dot), pos)
    } else {
        (Some(TokenView::Error(LoxError::InvalidChar(line as usize, v as char))), pos)
    }
}

pub proof fn lemma_match_token_bounds(src: Seq<u8>, v: u8, pos: int, line: int)
    requires
        1 <= pos <= src.len(),
    ensures
        pos <= match_token_spec(src, v, pos, line).1 <= src.len(),
{
    lemma_seek_bounds(src, pos, digit_pred());
    lemma_seek_bounds(src, pos, ident_pred());
    lemma_seek_bounds(src, pos, not_quote_pred());
    if pos + 1 <= src.len() {
        lemma_seek_bounds(src, pos + 1, not_newline_pred());
        let d1 = seek(src, pos, digit_pred());
        if d1 + 1 <= src.len() {
            lemma_seek_bounds(src, d1 + 1, digit_pred());
        }
    }
}

/// The full state step of "produce one token": the item yielded (nothing
/// once the stream is exhausted) and the lexer state after it.
pub struct LexStep {
    pub item: Option<WithSpanView<TokenView>>,
    pub pos: int,
    pub line: int,
    pub end: bool,
}

/// What one call of `next_token` does in state `(pos, line, end)` over
/// `src`: skips whitespace and comments, then yields the next token; at
/// the end of input it yields `Eof` exactly once and nothing ever after.
pub open spec fn next_token_spec(src: Seq<u8>, pos: int, line: int, end: bool) -> LexStep
    recommends
        0 <= pos <= src.len(),
    decreases src.len() - pos,
    via next_token_spec_decreases
{
    if !(0 <= pos < src.len()) {
        if end {
            LexStep { item: None, pos, line, end }
        } else {
            let ep = if pos > 0 {
                pos - 1
            } else {
                0
            };
            LexStep {
                item: Some(WithSpanView { value: TokenView::Eof, line, start: ep, end: ep }),
                pos,
                line,
                end: true,
            }
        }
    } else {
        let v = src[pos];
        let line2 = if v == 10 {
            line + 1
        } else {
            line
        };
        let stepped = match_token_spec(src, v, pos + 1, line2);
        match stepped.0 {
            None => next_token_spec(src, stepped.1, line2, end),
            Some(t) => LexStep {
                item: Some(
                    WithSpanView { value: t, line: line2, start: pos, end: stepped.1 },
                ),
                pos: stepped.1,
                line: line2,
                end,
            },
        }
    }
}

#[via_fn]
proof fn next_token_spec_decreases(src: Seq<u8>, pos: int, line: int, end: bool) {
    if 0 <= pos < src.len() {
        let v = src[pos];
        let line2 = if v == 10 {
            line + 1
        } else {
            line
        };
        lemma_match_token_bounds(src, v, pos + 1, line2);
    }
}

pub proof fn lemma_next_token_spec_bounds(src: Seq<u8>, pos: int, line: int, end: bool)
    requires
        0 <= pos <= src.len(),
    ensures
        ({
            let s = next_token_spec(src, pos, line, end);
            &&& pos <= s.pos <= src.len()
            &&& (s.item is Some ==> s.pos > pos || (!end && s.end))
            &&& (s.item is None ==> end)
        }),
    decreases src.len() - pos,
{
    if 0 <= pos < src.len() {
        let v = src[pos];
        let line2 = if v == 10 {
            line + 1
        } else {
            line
        };
        lemma_match_token_bounds(src, v, pos + 1, line2);
        let stepped = match_token_spec(src, v, pos + 1, line2);
        if stepped.0 is None {
            lemma_next_token_spec_bounds(src, stepped.1, line2, end);
        }
    }
}

/// Every token the lexer yields from the given state until the stream is
/// exhausted, in order; the last one is the end-of-input token.
pub open spec fn lex_all(src: Seq<u8>, pos: int, line: int, end: bool) -> Seq<
    WithSpanView<TokenView>,
>
    recommends
        0 <= pos <= src.len(),
    decreases src.len() - pos, (if end {
            0int
        } else {
            1int
        }),
    via lex_all_decreases
{
    let step = next_token_spec(src, pos, line, end);
    match step.item {
        None => Seq::empty(),
        Some(t) => seq![t] + lex_all(src, step.pos, step.line, step.end),
    }
}

#[via_fn]
proof fn lex_all_decreases(src: Seq<u8>, pos: int, line: int, end: bool) {
    if 0 <= pos <= src.len() {
        lemma_next_token_spec_bounds(src, pos, line, end);
    }
}

/// The mathematical image of a token vector: each spanned token's view,
/// in order.
pub open spec fn tokens_view(v: Seq<WithSpan<Token>>) -> Seq<WithSpanView<TokenView>> {
    v.map_values(|t: WithSpan<Token>| t@)
}

/// Lexes the whole source in one pass and collects every token, lexical
/// error tokens included, with the end-of-input token last.
pub fn tokenize(source: Vec<u8>) -> (r: Vec<WithSpan<Token>>)
    requires
        source@.len() < usize::MAX,
    ensures
        tokens_view(r@) == lex_all(source@, 0, 1, false),
{
    let ghost src = source@;
    let mut lx = Lexer::new(source);
    let mut out: Vec<WithSpan<Token>> = Vec::new();
    loop
        invariant
            lx.wf(),
            lx.sc.val@ == src,
            tokens_view(out@) + lex_all(src, lx.sc.pos as int, lx.line as int, lx.end)
                == lex_all(src, 0, 1, false),
        ensures
            tokens_view(out@) == lex_all(src, 0, 1, false),
        decreases src.len() - lx.sc.pos + (if lx.end {
            0int
        } else {
            1int
        }),
    {
        let ghost pre = lx;
        let ghost out_pre = out@;
        match lx.next_token() {
            Some(t) => {
                proof {
                    lemma_next_token_spec_bounds(src, pre.sc.pos as int, pre.line as int, pre.end);
                }
                out.push(t);
                proof {
                    assert(tokens_view(out@) =~= tokens_view(out_pre) + seq![t@]);
                    assert(tokens_view(out_pre) + (seq![t@] + lex_all(
                        src,
                        lx.sc.pos as int,
                        lx.line as int,
                        lx.end,
                    )) =~= (tokens_view(out_pre) + seq![t@]) + lex_all(
                        src,
                        lx.sc.pos as int,
                        lx.line as int,
                        lx.end,
                    ));
                }
            },
            None => {
                proof {
                    lemma_next_token_spec_bounds(src, pre.sc.pos as int, pre.line as int, pre.end);
                    assert(tokens_view(out@) + Seq::<WithSpanView<TokenView>>::empty()
                        =~= tokens_view(out@));
                }
                break ;
            },
        }
    }
    out
}

/// A minimal byte cursor over an immutable buffer, with lookahead of one
/// and predicate-based consumption.
pub struct Scanner {
    pub val: Vec<u8>,
    pub pos: usize,
}

impl Scanner {
    /// A cursor at the start of the buffer.
    pub fn new(value: Vec<u8>) -> (r: Scanner)
        ensures
            r.val == value,
            r.pos == 0,
    {
        Scanner { val: value, pos: 0 }
    }

    /// Moves the cursor past one byte. The caller answers for bounds.
    pub fn advance(&mut self)
        requires
            old(self).pos < old(self).val@.len(),
        ensures
            final(self).val == old(self).val,
            final(self).pos == old(self).pos + 1,
    {
        let n = self.val.len();
        if self.pos < n {
            self.pos = self.pos + 1;
        }
    }

    /// The byte at the cursor, or nothing at the end of input; the cursor
    /// does not move.
    pub fn peek(&self) -> (r: Option<u8>)
        ensures
            r == (if self.pos < self.val@.len() {
                Some(self.val@[self.pos as int])
            } else {
                None::<u8>
            }),
    {
        if self.pos < self.val.len() {
            Some(self.val[self.pos])
        } else {
            None
        }
    }

    /// The byte at the cursor, moving past it, or nothing at the end.
    pub fn next_byte(&mut self) -> (r: Option<u8>)
        ensures
            final(self).val == old(self).val,
            old(self).pos < old(self).val@.len() ==> r == Some(
                old(self).val@[old(self).pos as int],
            ) && final(self).pos == old(self).pos + 1,
            old(self).pos >= old(self).val@.len() ==> r is None && final(self).pos == old(
                self,
            ).pos,
    {
        let nxt = self.peek();
        if nxt.is_some() {
            self.advance();
        }
        nxt
    }

    /// If the next byte satisfies the predicate, moves past it and returns
    /// true; otherwise leaves the cursor where it is and returns false.
    pub fn consume_if<F: Fn(u8) -> bool>(&mut self, f: F) -> (r: bool)
        requires
            forall|b: u8| #[trigger] f.requires((b,)),
        ensures
            final(self).val == old(self).val,
            r ==> old(self).pos < old(self).val@.len() && call_ensures(
                f,
                (old(self).val@[old(self).pos as int],),
                true,
            ) && final(self).pos == old(self).pos + 1,
            !r ==> final(self).pos == old(self).pos && (old(self).pos < old(self).val@.len()
                ==> call_ensures(f, (old(self).val@[old(self).pos as int],), false)),
    {
        if let Some(ch) = self.peek() {
            if f(ch) {
                self.advance();
                return true;
            }
        }
        false
    }

    /// If the byte one past the cursor satisfies the predicate, moves the
    /// cursor forward by one and returns true; otherwise leaves it and
    /// returns false.
    pub fn consume_if_next<F: Fn(u8) -> bool>(&mut self, f: F) -> (r: bool)
        requires
            forall|b: u8| #[trigger] f.requires((b,)),
            old(self).pos < old(self).val@.len(),
        ensures
            final(self).val == old(self).val,
            r ==> old(self).pos + 1 < old(self).val@.len() && call_ensures(
                f,
                (old(self).val@[old(self).pos + 1],),
                true,
            ) && final(self).pos == old(self).pos + 1,
            !r ==> final(self).pos == old(self).pos && (old(self).pos + 1 < old(self).val@.len()
                ==> call_ensures(f, (old(self).val@[old(self).pos + 1],), false)),
    {
        let n = self.val.len();
        if self.pos < n && self.pos + 1 < n {
            let ch = self.val[self.pos + 1];
            if f(ch) {
                self.advance();
                return true;
            }
        }
        false
    }

    /// Moves past a maximal run of bytes satisfying the predicate and
    /// returns the consumed byte range.
    pub fn consume_while<F: Fn(u8) -> bool>(&mut self, f: F) -> (r: Span)
        requires
            forall|b: u8| #[trigger] f.requires((b,)),
            old(self).pos <= old(self).val@.len(),
        ensures
            final(self).val == old(self).val,
            r.start == old(self).pos,
            r.end == final(self).pos,
            old(self).pos <= final(self).pos <= old(self).val@.len(),
            forall|i: int|
                old(self).pos <= i < final(self).pos ==> call_ensures(
                    f,
                    (old(self).val@[i],),
                    true,
                ),
            final(self).pos < old(self).val@.len() ==> call_ensures(
                f,
                (old(self).val@[final(self).pos as int],),
                false,
            ),
    {
        let start = self.pos;
        loop
            invariant
                forall|b: u8| #[trigger] f.requires((b,)),
                self.val == old(self).val,
                start <= self.pos <= self.val@.len(),
                start == old(self).pos,
                forall|i: int|
                    start <= i < self.pos ==> call_ensures(f, (self.val@[i],), true),
            ensures
                self.val == old(self).val,
                start <= self.pos <= self.val@.len(),
                forall|i: int|
                    start <= i < self.pos ==> call_ensures(f, (self.val@[i],), true),
                self.pos < self.val@.len() ==> call_ensures(
                    f,
                    (self.val@[self.pos as int],),
                    false,
                ),
            decreases self.val@.len() - self.pos,
        {
            if self.pos < self.val.len() {
                let u = self.val[self.pos];
                if f(u) {
                    self.advance();
                } else {
                    break ;
                }
            } else {
                break ;
            }
        }
        Span { start, end: self.pos }
    }

    /// A copy of the bytes in `[start, end)`.
    pub fn copy_range(&self, start: usize, end: usize) -> (r: Vec<u8>)
        requires
            start <= end <= self.val@.len(),
        ensures
            r@ == self.val@.subrange(start as int, end as int),
    {
        slice_to_vec(&self.val[start..end])
    }
}

/// A maximal run whose bytes all satisfied a consuming closure, followed by
/// a byte that failed it, is exactly what `seek` computes for the
/// closure's predicate.
proof fn lemma_run_is_seek<F: Fn(u8) -> bool>(
    f: F,
    src: Seq<u8>,
    p0: int,
    p1: int,
    p: spec_fn(u8) -> bool,
)
    requires
        0 <= p0 <= p1 <= src.len(),
        forall|i: int| p0 <= i < p1 ==> call_ensures(f, (src[i],), true),
        p1 < src.len() ==> call_ensures(f, (src[p1],), false),
        forall|b: u8, r: bool| call_ensures(f, (b,), r) ==> r == p(b),
    ensures
        seek(src, p0, p) == p1,
{
    assert forall|i: int| p0 <= i < p1 implies p(src[i]) by {
        assert(call_ensures(f, (src[i],), true));
    }
    lemma_seek_is(src, p0, p, p1);
}

/// The lexer: a restartable-only-from-scratch producer of span-annotated
/// tokens. State is the byte cursor, the current line, and whether the
/// end-of-input token has been produced.
pub struct Lexer {
    pub sc: Scanner,
    pub line: usize,
    pub end: bool,
}

impl Lexer {
    /// A well-formed lexer: the cursor is in bounds, the buffer leaves room
    /// for the line counter, the line counter is positive and at most one
    /// more than the bytes consumed, and the end flag is set only at the
    /// end of input.
    pub open spec fn wf(&self) -> bool {
        &&& self.sc.pos <= self.sc.val@.len()
        &&& self.sc.val@.len() < usize::MAX
        &&& 1 <= self.line
        &&& self.line <= self.sc.pos + 1
        &&& (self.end ==> self.sc.pos == self.sc.val@.len())
    }

    /// A lexer at the start of the source, on line 1.
    pub fn new(source: Vec<u8>) -> (r: Lexer)
        requires
            source@.len() < usize::MAX,
        ensures
            r.wf(),
            r.sc.val == source,
            r.sc.pos == 0,
            r.line == 1,
            !r.end,
    {
        Lexer { sc: Scanner::new(source), line: 1, end: false }
    }

    /// The line the lexer is currently on.
    pub fn get_line(&self) -> (r: usize)
        ensures
            r == self.line,
    {
        self.line
    }

    /// Consumes the probe byte and returns `matched` if it is next,
    /// otherwise returns `unmatched` without moving: the maximal-munch
    /// choice between a two-character operator and its one-character prefix.
    fn either(&mut self, to_match: u8, matched: Token, unmatched: Token) -> (r: Token)
        requires
            old(self).sc.pos <= old(self).sc.val@.len(),
        ensures
            final(self).sc.val == old(self).sc.val,
            final(self).line == old(self).line,
            final(self).end == old(self).end,
            probe(old(self).sc.val@, old(self).sc.pos as int, to_match) ==> r == matched
                && final(self).sc.pos == old(self).sc.pos + 1,
            !probe(old(self).sc.val@, old(self).sc.pos as int, to_match) ==> r == unmatched
                && final(self).sc.pos == old(self).sc.pos,
    {
        let f = |v: u8| -> (b: bool)
            ensures
                b == (v == to_match),
            { v == to_match };
        if self.sc.consume_if(f) {
            matched
        } else {
            unmatched
        }
    }

    /// Consumes the rest of a number: a maximal digit run, then a dot and a
    /// second digit run only when the dot is followed by a digit. Returns
    /// the consumed range.
    fn number(&mut self) -> (r: Span)
        requires
            old(self).sc.pos <= old(self).sc.val@.len(),
        ensures
            final(self).sc.val == old(self).sc.val,
            final(self).line == old(self).line,
            final(self).end == old(self).end,
            r.start == old(self).sc.pos,
            r.end == final(self).sc.pos,
            final(self).sc.pos as int == number_end(old(self).sc.val@, old(self).sc.pos as int),
            old(self).sc.pos <= final(self).sc.pos <= old(self).sc.val@.len(),
    {
        let start = self.sc.pos;
        let fd = |u: u8| -> (b: bool)
            ensures
                b == is_digit(u),
            { 48 <= u && u <= 57 };
        let r1 = self.sc.consume_while(fd);
        proof {
            lemma_run_is_seek(fd, self.sc.val@, r1.start as int, r1.end as int, digit_pred());
        }
        if let Some(v) = self.sc.peek() {
            if v == 46 {
                if self.sc.consume_if_next(fd) {
                    let r2 = self.sc.consume_while(fd);
                    proof {
                        lemma_run_is_seek(
                            fd,
                            self.sc.val@,
                            r2.start as int,
                            r2.end as int,
                            digit_pred(),
                        );
                    }
                }
            }
        }
        Span { start, end: self.sc.pos }
    }

    /// Consumes the rest of an identifier: a maximal run of letters,
    /// digits and underscores. Returns the consumed range.
    fn identifier(&mut self) -> (r: Span)
        requires
            old(self).sc.pos <= old(self).sc.val@.len(),
        ensures
            final(self).sc.val == old(self).sc.val,
            final(self).line == old(self).line,
            final(self).end == old(self).end,
            r.start == old(self).sc.pos,
            r.end == final(self).sc.pos,
            final(self).sc.pos as int == seek(
                old(self).sc.val@,
                old(self).sc.pos as int,
                ident_pred(),
            ),
            old(self).sc.pos <= final(self).sc.pos <= old(self).sc.val@.len(),
    {
        let fi = |u: u8| -> (b: bool)
            ensures
                b == is_ident_byte(u),
            { (65 <= u && u <= 90) || (97 <= u && u <= 122) || u == 95 || (48 <= u && u <= 57) };
        let r1 = self.sc.consume_while(fi);
        proof {
            lemma_run_is_seek(fi, self.sc.val@, r1.start as int, r1.end as int, ident_pred());
        }
        Span { start: r1.start, end: self.sc.pos }
    }

    /// Dispatches on one consumed byte: yields the token it starts (with
    /// any rest of its lexeme consumed), or nothing for whitespace and
    /// comments.
    fn match_token(&mut self, v: u8) -> (r: Option<Token>)
        requires
            1 <= old(self).sc.pos <= old(self).sc.val@.len() < usize::MAX,
        ensures
            final(self).sc.val == old(self).sc.val,
            final(self).line == old(self).line,
            final(self).end == old(self).end,
            ({
                let stepped = match_token_spec(
                    old(self).sc.val@,
                    v,
                    old(self).sc.pos as int,
                    old(self).line as int,
                );
                &&& final(self).sc.pos as int == stepped.1
                &&& (match r {
                    Some(t) => stepped.0 == Some(t@),
                    None => stepped.0 is None,
                })
            }),
    {
        if v == 32 || v == 9 || v == 10 || v == 12 || v == 13 {
            None
        } else if v == 61 {
            Some(self.either(61, Token::EqualEqual, Token::Equal))
        } else if v == 33 {
            Some(self.either(61, Token::BangEqual, Token::Bang))
        } else if v == 62 {
            Some(self.either(61, Token::GreaterEqual, Token::Greater))
        } else if v == 60 {
            Some(self.either(61, Token::LessEqual, Token::Less))
        } else if v == 47 {
            let fs = |u: u8| -> (b: bool)
                ensures
                    b == (u == 47),
                { u == 47 };
            if self.sc.consume_if(fs) {
                let fn_ = |u: u8| -> (b: bool)
                    ensures
                        b == (u != 10),
                    { u != 10 };
                let rng = self.sc.consume_while(fn_);
                proof {
                    lemma_run_is_seek(
                        fn_,
                        self.sc.val@,
                        rng.start as int,
                        rng.end as int,
                        not_newline_pred(),
                    );
                }
                None
            } else {
                Some(Token::Slash)
            }
        } else if v == 34 {
            let fq = |u: u8| -> (b: bool)
                ensures
                    b == (u != 34),
                { u != 34 };
            let rng = self.sc.consume_while(fq);
            proof {
                lemma_run_is_seek(
                    fq,
                    self.sc.val@,
                    rng.start as int,
                    rng.end as int,
                    not_quote_pred(),
                );
            }
            if self.sc.next_byte().is_some() {
                let payload = self.sc.copy_range(rng.start, rng.end);
                Some(Token::String(payload))
            } else {
                Some(Token::Error(LoxError::UnterminatedStr(self.line)))
            }
        } else if (65 <= v && v <= 90) || (97 <= v && v <= 122) || v == 95 {
            let rng = self.identifier();
            let start = if rng.start > 0 {
                rng.start - 1
            } else {
                rng.start
            };
            let text = self.sc.copy_range(start, rng.end);
            match Token::from_keyword(text.as_slice()) {
                Some(token) => Some(token),
                None => Some(Token::Identifier(text)),
            }
        } else if 48 <= v && v <= 57 {
            let rng = self.number();
            let start = if rng.start > 0 {
                rng.start - 1
            } else {
                rng.start
            };
            let text = self.sc.copy_range(start, rng.end);
            Some(Token::Number(text))
        } else if v == 40 {
            Some(Token::LeftParen)
        } else if v == 41 {
            Some(Token::RightParen)
        } else if v == 123 {
            Some(Token::LeftBrace)
        } else if v == 125 {
            Some(Token::RightBrace)
        } else if v == 91 {
            Some(Token::LeftBracket)
        } else if v == 93 {
            Some(Token::RightBracket)
        } else if v == 44 {
            Some(Token::Comma)
        } else if v == 45 {
            Some(Token::Minus)
        } else if v == 43 {
            Some(Token::Plus)
        } else if v == 59 {
            Some(Token::Semicolon)
        } else if v == 42 {
            Some(Token::Star)
        } else if v == 46 {
            Some(Token::Dot)
        } else {
            Some(Token::Error(LoxError::InvalidChar(self.line, v as char)))
        }
    }

    /// Produces the next token, advancing past whitespace and comments.
    /// The end-of-input token is produced exactly once; after it, every
    /// call returns nothing and leaves the lexer unchanged.
    pub fn next_token(&mut self) -> (r: Option<WithSpan<Token>>)
        requires
            old(self).wf(),
        ensures
            final(self).wf(),
            final(self).sc.val == old(self).sc.val,
            ({
                let step = next_token_spec(
                    old(self).sc.val@,
                    old(self).sc.pos as int,
                    old(self).line as int,
                    old(self).end,
                );
                &&& final(self).sc.pos as int == step.pos
                &&& final(self).line as int == step.line
                &&& final(self).end == step.end
                &&& (match r {
                    Some(ws) => step.item == Some(ws@),
                    None => step.item is None,
                })
            }),
            old(self).end ==> r is None && *final(self) == *old(self),
    {
        loop
            invariant
                self.wf(),
                self.sc.val == old(self).sc.val,
                old(self).end ==> *self == *old(self),
                next_token_spec(
                    self.sc.val@,
                    self.sc.pos as int,
                    self.line as int,
                    self.end,
                ) == next_token_spec(
                    old(self).sc.val@,
                    old(self).sc.pos as int,
                    old(self).line as int,
                    old(self).end,
                ),
            decreases self.sc.val@.len() - self.sc.pos + (if self.end {
                0int
            } else {
                1int
            }),
        {
            let ghost pre = *self;
            let initial_pos = self.sc.pos;
            let nxt = self.sc.next_byte();
            match nxt {
                None => {
                    if self.end {
                        return None;
                    } else {
                        self.end = true;
                        let end_pos = if initial_pos > 0 {
                            initial_pos - 1
                        } else {
                            0
                        };
                        return Some(
                            WithSpan::new(Token::Eof, self.line, Span::new(end_pos, end_pos)),
                        );
                    }
                },
                Some(v) => {
                    if v == 10 {
                        self.line = self.line + 1;
                    }
                    let token = self.match_token(v);
                    match token {
                        None => {
                            proof {
                                lemma_match_token_bounds(
                                    self.sc.val@,
                                    v,
                                    initial_pos + 1,
                                    self.line as int,
                                );
                            }
                        },
                        Some(t) => {
                            proof {
                                lemma_match_token_bounds(
                                    self.sc.val@,
                                    v,
                                    initial_pos + 1,
                                    self.line as int,
                                );
                            }
                            let end_pos = self.sc.pos;
                            return Some(
                                WithSpan::new(
                                    t,
                                    self.line,
                                    Span::new(initial_pos, end_pos),
                                ),
                            );
                        },
                    }
                },
            }
        }
    }
}

/// Law: once the end-of-input token has been produced — the end flag is
/// set, which puts the cursor at the end of the buffer — every further
/// pull yields nothing and leaves the state exactly as it was, so pulling
/// again never yields another token, indefinitely.
pub proof fn lemma_eof_idempotent(src: Seq<u8>, pos: int, line: int)
    requires
        pos == src.len(),
    ensures
        ({
            let s = next_token_spec(src, pos, line, true);
            &&& s.item is None
            &&& s.pos == pos
            &&& s.line == line
            &&& s.end
        }),
{
}

proof fn lemma_match_token_not_eof(src: Seq<u8>, v: u8, pos: int, line: int)
    ensures
        (match match_token_spec(src, v, pos, line).0 {
            Some(t) => !(t is Eof),
            None => true,
        }),
{
}

proof fn lemma_next_token_yields(src: Seq<u8>, pos: int, line: int)
    requires
        0 <= pos <= src.len(),
    ensures
        ({
            let s = next_token_spec(src, pos, line, false);
            &&& s.item is Some
            &&& (match s.item {
                Some(ws) => (ws.value is Eof <==> s.end),
                None => false,
            })
            &&& (s.end ==> s.pos == src.len())
        }),
    decreases src.len() - pos,
{
    if 0 <= pos < src.len() {
        let v = src[pos];
        let line2 = if v == 10 {
            line + 1
        } else {
            line
        };
        lemma_match_token_bounds(src, v, pos + 1, line2);
        lemma_match_token_not_eof(src, v, pos + 1, line2);
        let stepped = match_token_spec(src, v, pos + 1, line2);
        if stepped.0 is None {
            lemma_next_token_yields(src, stepped.1, line2);
        }
    }
}

/// Law: from any live lexer state, the stream of remaining tokens is
/// finite and non-empty, its last token is the end-of-input marker, and no
/// earlier token is — the stream is terminated by exactly one `Eof`.
pub proof fn lemma_stream_ends_with_eof(src: Seq<u8>, pos: int, line: int)
    requires
        0 <= pos <= src.len(),
    ensures
        ({
            let ts = lex_all(src, pos, line, false);
            &&& ts.len() >= 1
            &&& ts.last().value is Eof
            &&& forall|i: int| 0 <= i < ts.len() - 1 ==> !((#[trigger] ts[i]).value is Eof)
        }),
    decreases src.len() - pos,
{
    lemma_next_token_yields(src, pos, line);
    lemma_next_token_spec_bounds(src, pos, line, false);
    let s = next_token_spec(src, pos, line, false);
    let ts = lex_all(src, pos, line, false);
    if s.end {
        assert(lex_all(src, s.pos, s.line, true) =~= Seq::<WithSpanView<TokenView>>::empty());
        assert(ts.len() == 1);
    } else {
        lemma_stream_ends_with_eof(src, s.pos, s.line);
        let rest = lex_all(src, s.pos, s.line, false);
        assert(ts.last() == rest.last());
    }
}

/// The source text of a token: the lexeme itself for punctuation,
/// operators, keywords, identifiers and numbers, and the quote-delimited
/// form for strings. Error and end-of-input tokens own no source text.
pub open spec fn token_lexeme(t: TokenView) -> Seq<u8> {
    match t {
        TokenView::LeftParen => seq![40u8],
        TokenView::RightParen => seq![41u8],
        TokenView::LeftBrace => seq![123u8],
        TokenView::RightBrace => seq![125u8],
        TokenView::LeftBracket => seq![91u8],
        TokenView::RightBracket => seq![93u8],
        TokenView::Comma => seq![44u8],
        TokenView::Dot => seq![46u8],
        TokenView::Minus => seq![45u8],
        TokenView::Plus => seq![43u8],
        TokenView::Semicolon => seq![59u8],
        TokenView::Slash => seq![47u8],
        TokenView::Star => seq![42u8],
        TokenView::Bang => seq![33u8],
        TokenView::BangEqual => seq![33u8, 61u8],
        TokenView::Equal => seq![61u8],
        TokenView::EqualEqual => seq![61u8, 61u8],
        TokenView::Greater => seq![62u8],
        TokenView::GreaterEqual => seq![62u8, 61u8],
        TokenView::Less => seq![60u8],
        TokenView::LessEqual => seq![60u8, 61u8],
        TokenView::And => ("and").spec_bytes(),
        TokenView::Class => ("class").spec_bytes(),
        TokenView::Else => ("else").spec_bytes(),
        TokenView::False => ("false").spec_bytes(),
        TokenView::Fun => ("fun").spec_bytes(),
        TokenView::For => ("for").spec_bytes(),
        TokenView::If => ("if").spec_bytes(),
        TokenView::Nil => ("nil").spec_bytes(),
        TokenView::Or => ("or").spec_bytes(),
        TokenView::Print => ("print").spec_bytes(),
        TokenView::Return => ("return").spec_bytes(),
        TokenView::Super => ("super").spec_bytes(),
        TokenView::This => ("this").spec_bytes(),
        TokenView::True => ("true").spec_bytes(),
        TokenView::Var => ("var").spec_bytes(),
        TokenView::While => ("while").spec_bytes(),
        TokenView::Import => ("import").spec_bytes(),
        TokenView::Identifier(s) => s,
        TokenView::String(s) => seq![34u8] + s + seq![34u8],
        TokenView::Number(s) => s,
        TokenView::Error(_) => Seq::empty(),
        TokenView::Eof => Seq::empty(),
    }
}

/// Law: span exactness — whenever the lexer yields a token other than an
/// error or the end-of-input marker, the source bytes under its span
/// reconstruct the token's lexeme exactly (for strings, the delimited
/// form, quotes included).
pub proof fn lemma_span_exactness(src: Seq<u8>, pos: int, line: int, end: bool)
    requires
        0 <= pos <= src.len(),
    ensures
        ({
            let s = next_token_spec(src, pos, line, end);
            match s.item {
                Some(ws) => !(ws.value is Error) && !(ws.value is Eof) ==> 0 <= ws.start
                    <= ws.end <= src.len() && src.subrange(ws.start, ws.end) == token_lexeme(
                    ws.value,
                ),
                None => true,
            }
        }),
    decreases src.len() - pos,
{
    if 0 <= pos < src.len() {
        let v = src[pos];
        let line2 = if v == 10 {
            line + 1
        } else {
            line
        };
        lemma_match_token_bounds(src, v, pos + 1, line2);
        let stepped = match_token_spec(src, v, pos + 1, line2);
        match stepped.0 {
            None => {
                lemma_span_exactness(src, stepped.1, line2, end);
            },
            Some(t) => {
                if v == 61 || v == 33 || v == 62 || v == 60 {
                    if probe(src, pos + 1, 61) {
                        assert(src.subrange(pos, pos + 2) =~= seq![v, 61u8]);
                    } else {
                        assert(src.subrange(pos, pos + 1) =~= seq![v]);
                    }
                } else if v == 47 {
                    assert(src.subrange(pos, pos + 1) =~= seq![v]);
                } else if v == 34 {
                    lemma_seek_props(src, pos + 1, not_quote_pred());
                    let q = seek(src, pos + 1, not_quote_pred());
                    if q < src.len() {
                        assert(src[q] == 34);
                        assert(src.subrange(pos, q + 1) =~= seq![34u8] + src.subrange(
                            pos + 1,
                            q,
                        ) + seq![34u8]);
                    }
                } else if is_ident_start(v) || is_digit(v) || is_whitespace(v) {
                    // the lexeme is by definition the bytes under the span
                } else {
                    assert(src.subrange(pos, pos + 1) =~= seq![v]);
                }
            },
        }
    }
}

} // verus!
