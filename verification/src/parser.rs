//! The parser: precedence-climbing recursive descent over a pre-lexed
//! token slice. The first structural failure aborts the whole parse; a
//! diagnostic line is recorded for a failed `expect` before it fails.

use vstd::prelude::*;
use vstd::string::StringSliceAdditionalSpecFns;

use crate::ast::BinaryOperator;
use crate::ast::Expr;
use crate::ast::ExprView;
use crate::ast::UnaryOperator;
use crate::position::Span;
use crate::position::WithSpan;
use crate::position::WithSpanView;
use crate::render::dec_digits;
use crate::render::push_bytes;
use crate::render::push_str_bytes;
use crate::render::push_usize_dec;
use crate::token::kind_of;
use crate::token::token_display;
use crate::token::Token;
use crate::token::TokenKind;
use crate::token::TokenView;
use crate::tokenizer::tokens_view;

verus! {

/// A structural parse failure. The parser never recovers: the first
/// failure aborts the whole parse.
#[derive(Copy, Clone, Debug, PartialEq, Eq, Structural)]
pub enum ParseError {
    /// The cursor ran past the end of the token slice.
    NotFound,
    /// A token was not what the grammar expects here.
    InvalidInput,
    /// A reserved construct (assignment, logical operators, calls, member
    /// access, lists) that this grammar deliberately leaves unimplemented.
    Unsupported,
}

/// Binding strength, lowest to highest. Assign, Or, And, Call and List are
/// reserved slots for grammar not implemented here.
#[derive(Copy, Clone, Debug, PartialEq, Eq, Structural)]
pub enum Precedence {
    Lowest,
    Assign,
    Or,
    And,
    Equality,
    Comparison,
    Term,
    Factor,
    Unary,
    Call,
    List,
    Primary,
}

/// The numeric level of a precedence, for comparisons.
pub open spec fn prec_level(p: Precedence) -> int {
    match p {
        Precedence::Lowest => 0,
        Precedence::Assign => 1,
        Precedence::Or => 2,
        Precedence::And => 3,
        Precedence::Equality => 4,
        Precedence::Comparison => 5,
        Precedence::Term => 6,
        Precedence::Factor => 7,
        Precedence::Unary => 8,
        Precedence::Call => 9,
        Precedence::List => 10,
        Precedence::Primary => 11,
    }
}

/// The precedence of the token kind when it stands in operator position;
/// a kind that starts no infix rule has no binding strength at all.
pub open spec fn precedence_of_kind(k: TokenKind) -> Precedence {
    match k {
        TokenKind::Equal => Precedence::Assign,
        TokenKind::Or => Precedence::Or,
        TokenKind::And => Precedence::And,
        TokenKind::BangEqual => Precedence::Equality,
        TokenKind::EqualEqual => Precedence::Equality,
        TokenKind::Less => Precedence::Comparison,
        TokenKind::LessEqual => Precedence::Comparison,
        TokenKind::Greater => Precedence::Comparison,
        TokenKind::GreaterEqual => Precedence::Comparison,
        TokenKind::Plus => Precedence::Term,
        TokenKind::Minus => Precedence::Term,
        TokenKind::Star => Precedence::Factor,
        TokenKind::Slash => Precedence::Factor,
        TokenKind::Bang => Precedence::Unary,
        TokenKind::LeftParen => Precedence::Call,
        TokenKind::Dot => Precedence::Call,
        TokenKind::LeftBracket => Precedence::List,
        _ => Precedence::Lowest,
    }
}

impl Precedence {
    /// The numeric level of this precedence.
    pub fn level(&self) -> (r: u8)
        ensures
            r as int == prec_level(*self),
    {
        match self {
            Precedence::Lowest => 0,
            Precedence::Assign => 1,
            Precedence::Or => 2,
            Precedence::And => 3,
            Precedence::Equality => 4,
            Precedence::Comparison => 5,
            Precedence::Term => 6,
            Precedence::Factor => 7,
            Precedence::Unary => 8,
            Precedence::Call => 9,
            Precedence::List => 10,
            Precedence::Primary => 11,
        }
    }

    /// The precedence of a token kind in operator position.
    pub fn of_kind(k: TokenKind) -> (r: Precedence)
        ensures
            r == precedence_of_kind(k),
    {
        match k {
            TokenKind::Equal => Precedence::Assign,
            TokenKind::Or => Precedence::Or,
            TokenKind::And => Precedence::And,
            TokenKind::BangEqual => Precedence::Equality,
            TokenKind::EqualEqual => Precedence::Equality,
            TokenKind::Less => Precedence::Comparison,
            TokenKind::LessEqual => Precedence::Comparison,
            TokenKind::Greater => Precedence::Comparison,
            TokenKind::GreaterEqual => Precedence::Comparison,
            TokenKind::Plus => Precedence::Term,
            TokenKind::Minus => Precedence::Term,
            TokenKind::Star => Precedence::Factor,
            TokenKind::Slash => Precedence::Factor,
            TokenKind::Bang => Precedence::Unary,
            TokenKind::LeftParen => Precedence::Call,
            TokenKind::Dot => Precedence::Call,
            TokenKind::LeftBracket => Precedence::List,
            _ => Precedence::Lowest,
        }
    }
}

/// One parsing step's outcome: the parsed value on success, the cursor
/// after the step, and the diagnostic lines it recorded, in order.
pub struct ParseStep<T> {
    pub res: Result<T, ParseError>,
    pub cursor: int,
    pub diags: Seq<Seq<u8>>,
}

/// The kind of the token at the cursor, or `Eof` past the end.
pub open spec fn kind_at(toks: Seq<WithSpanView<TokenView>>, cursor: int) -> TokenKind {
    if 0 <= cursor < toks.len() {
        kind_of(toks[cursor].value)
    } else {
        TokenKind::Eof
    }
}

/// Whether the token at the cursor is the end-of-input token. Past the end
/// of the slice this is false, as there is no token at all.
pub open spec fn at_eof(toks: Seq<WithSpanView<TokenView>>, cursor: int) -> bool {
    0 <= cursor < toks.len() && toks[cursor].value is Eof
}

/// What `advance` does: the token under the cursor, moving past it, or a
/// failure when the cursor has run out of tokens.
pub open spec fn advance_spec(toks: Seq<WithSpanView<TokenView>>, cursor: int) -> ParseStep<
    WithSpanView<TokenView>,
> {
    if 0 <= cursor < toks.len() {
        ParseStep { res: Ok(toks[cursor]), cursor: cursor + 1, diags: Seq::empty() }
    } else {
        ParseStep { res: Err(ParseError::NotFound), cursor, diags: Seq::empty() }
    }
}

/// The diagnostic recorded when `expect` meets the wrong token:
/// `[line {line}] Error at {token-display}: Expect expression.`
pub open spec fn expect_msg(t: WithSpanView<TokenView>) -> Seq<u8> {
    ("[line ").spec_bytes() + dec_digits(t.line) + ("] Error at ").spec_bytes() + token_display(
        t.value,
    ) + (": Expect expression.").spec_bytes()
}

/// The diagnostic recorded for a token in prefix position that starts no
/// expression.
pub open spec fn prefix_msg() -> Seq<u8> {
    ("Unexpected token.").spec_bytes()
}

/// The diagnostic recorded for a token in binary-operator position that is
/// no binary operator: ` {line} | Unexpected binary operator got:
/// {start}..{end}` over the token's byte range.
pub open spec fn binary_op_msg(t: WithSpanView<TokenView>) -> Seq<u8> {
    (" ").spec_bytes() + dec_digits(t.line) + (" | Unexpected binary operator got: ").spec_bytes()
        + dec_digits(t.start) + ("..").spec_bytes() + dec_digits(t.end)
}

/// The diagnostic recorded for a token in unary-operator position that is
/// no unary operator.
pub open spec fn unary_op_msg(t: WithSpanView<TokenView>) -> Seq<u8> {
    (" ").spec_bytes() + dec_digits(t.line) + (" | Unexpected unary operator got: ").spec_bytes()
        + token_display(t.value)
}

/// What `expect` does: advances, succeeds when the token has the wanted
/// kind, and otherwise records one diagnostic line and fails.
pub open spec fn expect_spec(
    toks: Seq<WithSpanView<TokenView>>,
    cursor: int,
    expected: TokenKind,
) -> ParseStep<WithSpanView<TokenView>> {
    let a = advance_spec(toks, cursor);
    match a.res {
        Err(e) => a,
        Ok(t) => {
            if kind_of(t.value) == expected {
                a
            } else {
                ParseStep { res: Err(ParseError::InvalidInput), cursor: a.cursor, diags: seq![
                    expect_msg(t),
                ] }
            }
        },
    }
}

/// What parsing one primary production does: one literal, `nil` or `this`
/// token becomes a leaf carrying that token's span; any other token is a
/// failure (identifiers and `super` have no production in this grammar).
pub open spec fn parse_primary_spec(toks: Seq<WithSpanView<TokenView>>, cursor: int) -> ParseStep<
    WithSpanView<ExprView>,
> {
    let a = advance_spec(toks, cursor);
    match a.res {
        Err(e) => ParseStep { res: Err(e), cursor: a.cursor, diags: a.diags },
        Ok(tc) => {
            let leaf = match tc.value {
                TokenView::Nil => Some(ExprView::Nil),
                TokenView::This => Some(ExprView::This),
                TokenView::Number(n) => Some(ExprView::Number(n)),
                TokenView::True => Some(ExprView::Boolean(true)),
                TokenView::False => Some(ExprView::Boolean(false)),
                TokenView::String(s) => Some(ExprView::String(s)),
                _ => None,
            };
            match leaf {
                Some(v) => ParseStep {
                    res: Ok(
                        WithSpanView { value: v, line: tc.line, start: tc.start, end: tc.end },
                    ),
                    cursor: a.cursor,
                    diags: Seq::empty(),
                },
                None => ParseStep {
                    res: Err(ParseError::InvalidInput),
                    cursor: a.cursor,
                    diags: Seq::empty(),
                },
            }
        },
    }
}

/// What parsing a unary operator does: `-` or `!` becomes the operator
/// with its token's span; anything else records a diagnostic and fails.
pub open spec fn parse_unary_op_spec(toks: Seq<WithSpanView<TokenView>>, cursor: int) -> ParseStep<
    WithSpanView<UnaryOperator>,
> {
    let a = advance_spec(toks, cursor);
    match a.res {
        Err(e) => ParseStep { res: Err(e), cursor: a.cursor, diags: a.diags },
        Ok(tc) => match tc.value {
            TokenView::Minus => ParseStep {
                res: Ok(
                    WithSpanView {
                        value: UnaryOperator::Minus,
                        line: tc.line,
                        start: tc.start,
                        end: tc.end,
                    },
                ),
                cursor: a.cursor,
                diags: Seq::empty(),
            },
            TokenView::Bang => ParseStep {
                res: Ok(
                    WithSpanView {
                        value: UnaryOperator::Bang,
                        line: tc.line,
                        start: tc.start,
                        end: tc.end,
                    },
                ),
                cursor: a.cursor,
                diags: Seq::empty(),
            },
            _ => ParseStep {
                res: Err(ParseError::InvalidInput),
                cursor: a.cursor,
                diags: seq![unary_op_msg(tc)],
            },
        },
    }
}

/// The binary operator a token stands for, if any.
pub open spec fn binary_op_of(t: TokenView) -> Option<BinaryOperator> {
    match t {
        TokenView::Plus => Some(BinaryOperator::Plus),
        TokenView::Minus => Some(BinaryOperator::Minus),
        TokenView::Star => Some(BinaryOperator::Star),
        TokenView::Slash => Some(BinaryOperator::Slash),
        TokenView::BangEqual => Some(BinaryOperator::BangEqual),
        TokenView::EqualEqual => Some(BinaryOperator::EqualEqual),
        TokenView::Less => Some(BinaryOperator::Less),
        TokenView::LessEqual => Some(BinaryOperator::LessEqual),
        TokenView::Greater => Some(BinaryOperator::Greater),
        TokenView::GreaterEqual => Some(BinaryOperator::GreaterEqual),
        _ => None,
    }
}

/// What parsing a binary operator does: an operator token becomes its
/// tag with the token's span; anything else records a diagnostic and fails.
pub open spec fn parse_binary_op_spec(toks: Seq<WithSpanView<TokenView>>, cursor: int) -> ParseStep<
    WithSpanView<BinaryOperator>,
> {
    let a = advance_spec(toks, cursor);
    match a.res {
        Err(e) => ParseStep { res: Err(e), cursor: a.cursor, diags: a.diags },
        Ok(tc) => match binary_op_of(tc.value) {
            Some(op) => ParseStep {
                res: Ok(
                    WithSpanView { value: op, line: tc.line, start: tc.start, end: tc.end },
                ),
                cursor: a.cursor,
                diags: Seq::empty(),
            },
            None => ParseStep {
                res: Err(ParseError::InvalidInput),
                cursor: a.cursor,
                diags: seq![binary_op_msg(tc)],
            },
        },
    }
}

/// What parsing one expression at a minimum precedence does: one prefix
/// production, then infix productions while the next token binds strictly
/// tighter than `min_prec` (strictness is what makes every implemented
/// binary operator left-associative).
pub open spec fn parse_expr_spec(
    toks: Seq<WithSpanView<TokenView>>,
    cursor: int,
    min_prec: Precedence,
) -> ParseStep<WithSpanView<ExprView>>
    decreases toks.len() - cursor, 4int,
{
    let p = parse_prefix_spec(toks, cursor);
    match p.res {
        Err(e) => p,
        Ok(e1) => {
            if cursor < p.cursor <= toks.len() {
                let l = parse_infix_loop_spec(toks, p.cursor, min_prec, e1);
                ParseStep { res: l.res, cursor: l.cursor, diags: p.diags + l.diags }
            } else {
                ParseStep { res: Err(ParseError::NotFound), cursor: p.cursor, diags: p.diags }
            }
        },
    }
}

/// The infix loop: while the next token binds strictly tighter than
/// `min_prec` and is not the end of input, extend `e` by one infix
/// production.
pub open spec fn parse_infix_loop_spec(
    toks: Seq<WithSpanView<TokenView>>,
    cursor: int,
    min_prec: Precedence,
    e: WithSpanView<ExprView>,
) -> ParseStep<WithSpanView<ExprView>>
    decreases toks.len() - cursor, 5int,
{
    if at_eof(toks, cursor) || prec_level(min_prec) >= prec_level(
        precedence_of_kind(kind_at(toks, cursor)),
    ) {
        ParseStep { res: Ok(e), cursor, diags: Seq::empty() }
    } else {
        let s = parse_infix_spec(toks, cursor, e);
        match s.res {
            Err(err) => s,
            Ok(e2) => {
                if cursor < s.cursor <= toks.len() {
                    let l = parse_infix_loop_spec(toks, s.cursor, min_prec, e2);
                    ParseStep { res: l.res, cursor: l.cursor, diags: s.diags + l.diags }
                } else {
                    ParseStep { res: Err(ParseError::NotFound), cursor: s.cursor, diags: s.diags }
                }
            },
        }
    }
}

/// Prefix dispatch: literals, `nil` and `this` (with identifiers and
/// `super`, which then fail in the primary production) go to primary; `!`
/// and `-` to unary; `(` to grouping; `[` is a reserved construct; any
/// other token records a diagnostic and fails.
pub open spec fn parse_prefix_spec(toks: Seq<WithSpanView<TokenView>>, cursor: int) -> ParseStep<
    WithSpanView<ExprView>,
>
    decreases toks.len() - cursor, 3int,
{
    match kind_at(toks, cursor) {
        TokenKind::Number => parse_primary_spec(toks, cursor),
        TokenKind::Nil => parse_primary_spec(toks, cursor),
        TokenKind::This => parse_primary_spec(toks, cursor),
        TokenKind::True => parse_primary_spec(toks, cursor),
        TokenKind::False => parse_primary_spec(toks, cursor),
        TokenKind::Identifier => parse_primary_spec(toks, cursor),
        TokenKind::Super => parse_primary_spec(toks, cursor),
        TokenKind::String => parse_primary_spec(toks, cursor),
        TokenKind::Bang => parse_unary_spec(toks, cursor),
        TokenKind::Minus => parse_unary_spec(toks, cursor),
        TokenKind::LeftParen => parse_grouping_spec(toks, cursor),
        TokenKind::LeftBracket => ParseStep {
            res: Err(ParseError::Unsupported),
            cursor,
            diags: Seq::empty(),
        },
        _ => ParseStep { res: Err(ParseError::InvalidInput), cursor, diags: seq![prefix_msg()] },
    }
}

/// Infix dispatch: the implemented binary operators go to the binary
/// production; every other token that can bind here belongs to a reserved
/// construct (assignment, logical operators, calls, member access, lists)
/// and fails as unsupported.
pub open spec fn parse_infix_spec(
    toks: Seq<WithSpanView<TokenView>>,
    cursor: int,
    left: WithSpanView<ExprView>,
) -> ParseStep<WithSpanView<ExprView>>
    decreases toks.len() - cursor, 2int,
{
    match kind_at(toks, cursor) {
        TokenKind::BangEqual => parse_binary_spec(toks, cursor, left),
        TokenKind::EqualEqual => parse_binary_spec(toks, cursor, left),
        TokenKind::Less => parse_binary_spec(toks, cursor, left),
        TokenKind::LessEqual => parse_binary_spec(toks, cursor, left),
        TokenKind::Greater => parse_binary_spec(toks, cursor, left),
        TokenKind::GreaterEqual => parse_binary_spec(toks, cursor, left),
        TokenKind::Plus => parse_binary_spec(toks, cursor, left),
        TokenKind::Minus => parse_binary_spec(toks, cursor, left),
        TokenKind::Star => parse_binary_spec(toks, cursor, left),
        TokenKind::Slash => parse_binary_spec(toks, cursor, left),
        _ => ParseStep { res: Err(ParseError::Unsupported), cursor, diags: Seq::empty() },
    }
}

/// The binary production: the operator's own precedence is read before it
/// is consumed, and the right operand is parsed at that precedence; the
/// node's span runs from the left operand's start to the right one's end,
/// and its line is the left operand's.
pub open spec fn parse_binary_spec(
    toks: Seq<WithSpanView<TokenView>>,
    cursor: int,
    left: WithSpanView<ExprView>,
) -> ParseStep<WithSpanView<ExprView>>
    decreases toks.len() - cursor, 1int,
{
    let prec = precedence_of_kind(kind_at(toks, cursor));
    let o = parse_binary_op_spec(toks, cursor);
    match o.res {
        Err(e) => ParseStep { res: Err(e), cursor: o.cursor, diags: o.diags },
        Ok(op) => {
            if cursor < o.cursor <= toks.len() {
                let r = parse_expr_spec(toks, o.cursor, prec);
                match r.res {
                    Err(e) => ParseStep { res: Err(e), cursor: r.cursor, diags: o.diags + r.diags },
                    Ok(right) => ParseStep {
                        res: Ok(
                            WithSpanView {
                                value: ExprView::Binary(Box::new(left), op, Box::new(right)),
                                line: left.line,
                                start: left.start,
                                end: right.end,
                            },
                        ),
                        cursor: r.cursor,
                        diags: o.diags + r.diags,
                    },
                }
            } else {
                ParseStep { res: Err(ParseError::NotFound), cursor: o.cursor, diags: o.diags }
            }
        },
    }
}

/// The unary production: the operand is parsed at unary precedence, so a
/// prefix operator binds tighter than any binary one; the node's span runs
/// from the operator to the operand's end, on the operator's line.
pub open spec fn parse_unary_spec(toks: Seq<WithSpanView<TokenView>>, cursor: int) -> ParseStep<
    WithSpanView<ExprView>,
>
    decreases toks.len() - cursor, 1int,
{
    let o = parse_unary_op_spec(toks, cursor);
    match o.res {
        Err(e) => ParseStep { res: Err(e), cursor: o.cursor, diags: o.diags },
        Ok(op) => {
            if cursor < o.cursor <= toks.len() {
                let r = parse_expr_spec(toks, o.cursor, Precedence::Unary);
                match r.res {
                    Err(e) => ParseStep { res: Err(e), cursor: r.cursor, diags: o.diags + r.diags },
                    Ok(right) => ParseStep {
                        res: Ok(
                            WithSpanView {
                                value: ExprView::Unary(op, Box::new(right)),
                                line: op.line,
                                start: op.start,
                                end: right.end,
                            },
                        ),
                        cursor: r.cursor,
                        diags: o.diags + r.diags,
                    },
                }
            } else {
                ParseStep { res: Err(ParseError::NotFound), cursor: o.cursor, diags: o.diags }
            }
        },
    }
}

/// The grouping production: `(`, a full expression from the lowest
/// precedence, then a required `)`; the node's span covers both
/// parentheses, on the opening one's line.
pub open spec fn parse_grouping_spec(toks: Seq<WithSpanView<TokenView>>, cursor: int) -> ParseStep<
    WithSpanView<ExprView>,
>
    decreases toks.len() - cursor, 1int,
{
    let lp = expect_spec(toks, cursor, TokenKind::LeftParen);
    match lp.res {
        Err(e) => ParseStep { res: Err(e), cursor: lp.cursor, diags: lp.diags },
        Ok(lpt) => {
            if cursor < lp.cursor <= toks.len() {
                let inner = parse_expr_spec(toks, lp.cursor, Precedence::Lowest);
                match inner.res {
                    Err(e) => ParseStep {
                        res: Err(e),
                        cursor: inner.cursor,
                        diags: lp.diags + inner.diags,
                    },
                    Ok(ie) => {
                        let rp = expect_spec(toks, inner.cursor, TokenKind::RightParen);
                        match rp.res {
                            Err(e) => ParseStep {
                                res: Err(e),
                                cursor: rp.cursor,
                                diags: lp.diags + inner.diags + rp.diags,
                            },
                            Ok(rpt) => ParseStep {
                                res: Ok(
                                    WithSpanView {
                                        value: ExprView::Grouping(Box::new(ie)),
                                        line: lpt.line,
                                        start: lpt.start,
                                        end: rpt.end,
                                    },
                                ),
                                cursor: rp.cursor,
                                diags: lp.diags + inner.diags + rp.diags,
                            },
                        }
                    },
                }
            } else {
                ParseStep { res: Err(ParseError::NotFound), cursor: lp.cursor, diags: lp.diags }
            }
        },
    }
}

/// Spans combine the same way at every depth of a tree: a binary node
/// runs from its left operand's start to its right operand's end and
/// reports the left operand's line; a unary node runs from its operator's
/// start to its operand's end and reports the operator's line.
pub open spec fn spans_combined(ws: WithSpanView<ExprView>) -> bool
    decreases ws,
{
    match ws.value {
        ExprView::Binary(l, op, r) => ws.start == l.start && ws.end == r.end && ws.line == l.line
            && spans_combined(*l) && spans_combined(*r),
        ExprView::Unary(op, v) => ws.start == op.start && ws.end == v.end && ws.line == op.line
            && spans_combined(*v),
        ExprView::Grouping(g) => spans_combined(*g),
        _ => true,
    }
}

/// Law: every expression the parser yields has its spans combined by the
/// one rule throughout — `spans_combined` holds of the whole tree.
pub proof fn lemma_parse_spans_combined(
    toks: Seq<WithSpanView<TokenView>>,
    cursor: int,
    min_prec: Precedence,
)
    ensures
        (match parse_expr_spec(toks, cursor, min_prec).res {
            Ok(e) => spans_combined(e),
            Err(_) => true,
        }),
    decreases toks.len() - cursor, 4int,
{
    lemma_prefix_spans_combined(toks, cursor);
    let p = parse_prefix_spec(toks, cursor);
    match p.res {
        Ok(e1) => {
            if cursor < p.cursor <= toks.len() {
                lemma_loop_spans_combined(toks, p.cursor, min_prec, e1);
            }
        },
        Err(_) => {},
    }
}

proof fn lemma_loop_spans_combined(
    toks: Seq<WithSpanView<TokenView>>,
    cursor: int,
    min_prec: Precedence,
    e: WithSpanView<ExprView>,
)
    requires
        spans_combined(e),
    ensures
        (match parse_infix_loop_spec(toks, cursor, min_prec, e).res {
            Ok(e2) => spans_combined(e2),
            Err(_) => true,
        }),
    decreases toks.len() - cursor, 5int,
{
    if !(at_eof(toks, cursor) || prec_level(min_prec) >= prec_level(
        precedence_of_kind(kind_at(toks, cursor)),
    )) {
        lemma_infix_spans_combined(toks, cursor, e);
        let s = parse_infix_spec(toks, cursor, e);
        match s.res {
            Ok(e2) => {
                if cursor < s.cursor <= toks.len() {
                    lemma_loop_spans_combined(toks, s.cursor, min_prec, e2);
                }
            },
            Err(_) => {},
        }
    }
}

proof fn lemma_infix_spans_combined(
    toks: Seq<WithSpanView<TokenView>>,
    cursor: int,
    left: WithSpanView<ExprView>,
)
    requires
        spans_combined(left),
    ensures
        (match parse_infix_spec(toks, cursor, left).res {
            Ok(e) => spans_combined(e),
            Err(_) => true,
        }),
    decreases toks.len() - cursor, 2int,
{
    lemma_binary_spans_combined(toks, cursor, left);
}

proof fn lemma_binary_spans_combined(
    toks: Seq<WithSpanView<TokenView>>,
    cursor: int,
    left: WithSpanView<ExprView>,
)
    requires
        spans_combined(left),
    ensures
        (match parse_binary_spec(toks, cursor, left).res {
            Ok(e) => spans_combined(e),
            Err(_) => true,
        }),
    decreases toks.len() - cursor, 1int,
{
    let o = parse_binary_op_spec(toks, cursor);
    match o.res {
        Ok(op) => {
            if cursor < o.cursor <= toks.len() {
                lemma_parse_spans_combined(
                    toks,
                    o.cursor,
                    precedence_of_kind(kind_at(toks, cursor)),
                );
            }
        },
        Err(_) => {},
    }
}

proof fn lemma_prefix_spans_combined(toks: Seq<WithSpanView<TokenView>>, cursor: int)
    ensures
        (match parse_prefix_spec(toks, cursor).res {
            Ok(e) => spans_combined(e),
            Err(_) => true,
        }),
    decreases toks.len() - cursor, 3int,
{
    lemma_unary_spans_combined(toks, cursor);
    lemma_grouping_spans_combined(toks, cursor);
}

proof fn lemma_unary_spans_combined(toks: Seq<WithSpanView<TokenView>>, cursor: int)
    ensures
        (match parse_unary_spec(toks, cursor).res {
            Ok(e) => spans_combined(e),
            Err(_) => true,
        }),
    decreases toks.len() - cursor, 1int,
{
    let o = parse_unary_op_spec(toks, cursor);
    match o.res {
        Ok(op) => {
            if cursor < o.cursor <= toks.len() {
                lemma_parse_spans_combined(toks, o.cursor, Precedence::Unary);
            }
        },
        Err(_) => {},
    }
}

proof fn lemma_grouping_spans_combined(toks: Seq<WithSpanView<TokenView>>, cursor: int)
    ensures
        (match parse_grouping_spec(toks, cursor).res {
            Ok(e) => spans_combined(e),
            Err(_) => true,
        }),
    decreases toks.len() - cursor, 1int,
{
    let lp = expect_spec(toks, cursor, TokenKind::LeftParen);
    match lp.res {
        Ok(lpt) => {
            if cursor < lp.cursor <= toks.len() {
                lemma_parse_spans_combined(toks, lp.cursor, Precedence::Lowest);
            }
        },
        Err(_) => {},
    }
}

/// The view of the recorded diagnostics: each line's bytes, in order.
pub open spec fn diags_view(d: Seq<Vec<u8>>) -> Seq<Seq<u8>> {
    d.map_values(|v: Vec<u8>| v@)
}

/// Builds the `expect` diagnostic for the given token.
fn expect_message(t: &WithSpan<Token>) -> (r: Vec<u8>)
    ensures
        r@ == expect_msg(t@),
{
    let mut m: Vec<u8> = Vec::new();
    push_str_bytes(&mut m, "[line ");
    push_usize_dec(&mut m, t.line);
    push_str_bytes(&mut m, "] Error at ");
    let d = t.value.display_bytes();
    push_bytes(&mut m, d.as_slice());
    push_str_bytes(&mut m, ": Expect expression.");
    proof {
        assert(m@ =~= expect_msg(t@));
    }
    m
}

/// Builds the prefix-position diagnostic.
fn prefix_message() -> (r: Vec<u8>)
    ensures
        r@ == prefix_msg(),
{
    let mut m: Vec<u8> = Vec::new();
    push_str_bytes(&mut m, "Unexpected token.");
    proof {
        assert(m@ =~= prefix_msg());
    }
    m
}

/// Builds the binary-operator-position diagnostic for the given token.
fn binary_op_message(t: &WithSpan<Token>) -> (r: Vec<u8>)
    ensures
        r@ == binary_op_msg(t@),
{
    let mut m: Vec<u8> = Vec::new();
    push_str_bytes(&mut m, " ");
    push_usize_dec(&mut m, t.line);
    push_str_bytes(&mut m, " | Unexpected binary operator got: ");
    push_usize_dec(&mut m, t.span.start);
    push_str_bytes(&mut m, "..");
    push_usize_dec(&mut m, t.span.end);
    proof {
        assert(m@ =~= binary_op_msg(t@));
    }
    m
}

/// Builds the unary-operator-position diagnostic for the given token.
fn unary_op_message(t: &WithSpan<Token>) -> (r: Vec<u8>)
    ensures
        r@ == unary_op_msg(t@),
{
    let mut m: Vec<u8> = Vec::new();
    push_str_bytes(&mut m, " ");
    push_usize_dec(&mut m, t.line);
    push_str_bytes(&mut m, " | Unexpected unary operator got: ");
    let d = t.value.display_bytes();
    push_bytes(&mut m, d.as_slice());
    proof {
        assert(m@ =~= unary_op_msg(t@));
    }
    m
}

/// The parser: a read-only token slice consumed through a cursor, and the
/// diagnostic lines recorded so far. Callers read the diagnostics after a
/// failed parse; ignoring them still shows the failure in the result.
pub struct Parser {
    pub tokens: Vec<WithSpan<Token>>,
    pub cursor: usize,
    pub diagnostics: Vec<Vec<u8>>,
}

impl Parser {
    /// The mathematical image of the token slice.
    pub open spec fn toks(&self) -> Seq<WithSpanView<TokenView>> {
        tokens_view(self.tokens@)
    }

    /// The diagnostics recorded so far.
    pub open spec fn diags(&self) -> Seq<Seq<u8>> {
        diags_view(self.diagnostics@)
    }

    /// A parser over the given tokens, at the first one, with no
    /// diagnostics yet.
    pub fn new(tokens: Vec<WithSpan<Token>>) -> (r: Parser)
        ensures
            r.tokens == tokens,
            r.cursor == 0,
            r.diags() == Seq::<Seq<u8>>::empty(),
    {
        let r = Parser { tokens, cursor: 0, diagnostics: Vec::new() };
        proof {
            assert(r.diags() =~= Seq::<Seq<u8>>::empty());
        }
        r
    }

    /// Whether the cursor stands on the end-of-input token. Past the end
    /// of the slice there is no token at all, so this is false there.
    pub fn is_eof(&self) -> (r: bool)
        ensures
            r == at_eof(self.toks(), self.cursor as int),
    {
        if self.cursor < self.tokens.len() {
            self.tokens[self.cursor].value.is_eof()
        } else {
            false
        }
    }

    /// Records one diagnostic line.
    pub fn error(&mut self, msg: Vec<u8>)
        ensures
            final(self).tokens == old(self).tokens,
            final(self).cursor == old(self).cursor,
            final(self).diags() == old(self).diags() + seq![msg@],
    {
        let ghost m = msg@;
        self.diagnostics.push(msg);
        proof {
            assert(diags_view(self.diagnostics@) =~= diags_view(old(self).diagnostics@)
                + seq![m]);
        }
    }

    /// The kind of the token at the cursor, or `Eof` past the end.
    pub fn peek(&self) -> (r: TokenKind)
        ensures
            r == kind_at(self.toks(), self.cursor as int),
    {
        if self.cursor < self.tokens.len() {
            self.tokens[self.cursor].value.kind()
        } else {
            TokenKind::Eof
        }
    }

    /// The token at the cursor, copied, or a default end-of-input token
    /// past the end.
    pub fn peek_token(&self) -> (r: WithSpan<Token>)
        ensures
            r@ == (if 0 <= self.cursor < self.toks().len() {
                self.toks()[self.cursor as int]
            } else {
                (WithSpanView { value: TokenView::Eof, line: 1, start: 0, end: 0 })
            }),
    {
        if self.cursor < self.tokens.len() {
            let t = &self.tokens[self.cursor];
            WithSpan { value: t.value.clone(), line: t.line, span: t.span }
        } else {
            WithSpan::empty(Token::Eof)
        }
    }

    /// Whether the token at the cursor has the given kind.
    pub fn check(&self, match_token: TokenKind) -> (r: bool)
        ensures
            r == (kind_at(self.toks(), self.cursor as int) == match_token),
    {
        self.peek() == match_token
    }

    /// The token under the cursor, copied, moving past it; fails when the
    /// cursor has run out of tokens.
    pub fn advance(&mut self) -> (r: Result<WithSpan<Token>, ParseError>)
        ensures
            final(self).tokens == old(self).tokens,
            final(self).diags() == old(self).diags(),
            ({
                let s = advance_spec(old(self).toks(), old(self).cursor as int);
                &&& final(self).cursor as int == s.cursor
                &&& (match r {
                    Ok(t) => s.res == Ok::<WithSpanView<TokenView>, ParseError>(t@),
                    Err(e) => s.res == Err::<WithSpanView<TokenView>, ParseError>(e),
                })
            }),
    {
        if self.cursor < self.tokens.len() {
            let t = &self.tokens[self.cursor];
            let out = WithSpan { value: t.value.clone(), line: t.line, span: t.span };
            self.cursor = self.cursor + 1;
            Ok(out)
        } else {
            Err(ParseError::NotFound)
        }
    }

    /// Advances and succeeds when the token has the wanted kind; on a
    /// mismatch, records the diagnostic line and fails.
    pub fn expect(&mut self, expected: TokenKind) -> (r: Result<WithSpan<Token>, ParseError>)
        ensures
            final(self).tokens == old(self).tokens,
            ({
                let s = expect_spec(old(self).toks(), old(self).cursor as int, expected);
                &&& final(self).cursor as int == s.cursor
                &&& final(self).diags() == old(self).diags() + s.diags
                &&& (match r {
                    Ok(t) => s.res == Ok::<WithSpanView<TokenView>, ParseError>(t@),
                    Err(e) => s.res == Err::<WithSpanView<TokenView>, ParseError>(e),
                })
            }),
    {
        let token = match self.advance() {
            Ok(t) => t,
            Err(e) => {
                proof {
                    assert(old(self).diags() + Seq::<Seq<u8>>::empty() =~= old(self).diags());
                }
                return Err(e);
            },
        };
        if token.value.kind() == expected {
            proof {
                assert(old(self).diags() + Seq::<Seq<u8>>::empty() =~= old(self).diags());
            }
            Ok(token)
        } else {
            let msg = expect_message(&token);
            self.error(msg);
            Err(ParseError::InvalidInput)
        }
    }

    /// Consumes the token when it has the wanted kind and reports whether
    /// it did; it fails only when the wanted kind is `Eof` itself and the
    /// cursor has already run past the end of the slice.
    pub fn optionally(&mut self, expected: TokenKind) -> (r: Result<bool, ParseError>)
        ensures
            final(self).tokens == old(self).tokens,
            final(self).diags() == old(self).diags(),
            ({
                let k = kind_at(old(self).toks(), old(self).cursor as int);
                &&& (k == expected && old(self).cursor < old(self).toks().len() ==> r == Ok::<
                    bool,
                    ParseError,
                >(true) && final(self).cursor == old(self).cursor + 1)
                &&& (k == expected && old(self).cursor >= old(self).toks().len() ==> r == Err::<
                    bool,
                    ParseError,
                >(ParseError::NotFound) && final(self).cursor == old(self).cursor)
                &&& (k != expected ==> r == Ok::<bool, ParseError>(false) && final(self).cursor
                    == old(self).cursor)
            }),
    {
        let token = self.peek();
        if token == expected {
            match self.expect(expected) {
                Ok(_) => Ok(true),
                Err(e) => Err(e),
            }
        } else {
            Ok(false)
        }
    }

    /// Parses one full expression, from the lowest precedence.
    pub fn parse(&mut self) -> (r: Result<WithSpan<Expr>, ParseError>)
        requires
            old(self).cursor <= old(self).tokens@.len(),
        ensures
            final(self).tokens == old(self).tokens,
            old(self).cursor <= final(self).cursor <= old(self).tokens@.len(),
            ({
                let s = parse_expr_spec(
                    old(self).toks(),
                    old(self).cursor as int,
                    Precedence::Lowest,
                );
                &&& final(self).cursor as int == s.cursor
                &&& final(self).diags() == old(self).diags() + s.diags
                &&& (match r {
                    Ok(ws) => s.res == Ok::<WithSpanView<ExprView>, ParseError>(ws@),
                    Err(e) => s.res == Err::<WithSpanView<ExprView>, ParseError>(e),
                })
            }),
    {
        self.parse_expr(Precedence::Lowest)
    }

    /// Parses one expression at the given minimum precedence: one prefix
    /// production, then infix productions while the next token binds
    /// strictly tighter.
    fn parse_expr(&mut self, precedence: Precedence) -> (r: Result<WithSpan<Expr>, ParseError>)
        requires
            old(self).cursor <= old(self).tokens@.len(),
        ensures
            final(self).tokens == old(self).tokens,
            old(self).cursor <= final(self).cursor <= old(self).tokens@.len(),
            r is Ok ==> old(self).cursor < final(self).cursor,
            ({
                let s = parse_expr_spec(old(self).toks(), old(self).cursor as int, precedence);
                &&& final(self).cursor as int == s.cursor
                &&& final(self).diags() == old(self).diags() + s.diags
                &&& (match r {
                    Ok(ws) => s.res == Ok::<WithSpanView<ExprView>, ParseError>(ws@),
                    Err(e) => s.res == Err::<WithSpanView<ExprView>, ParseError>(e),
                })
            }),
        decreases self.tokens@.len() - self.cursor, 4int,
    {
        let ghost toks = self.toks();
        let ghost c0 = self.cursor as int;
        let ghost d0 = self.diags();
        let mut expr = match self.parse_prefix() {
            Ok(e) => e,
            Err(e) => {
                return Err(e);
            },
        };
        proof {
            let p = parse_prefix_spec(toks, c0);
            let rest0 = parse_infix_loop_spec(toks, self.cursor as int, precedence, expr@);
            assert(d0 + (p.diags + rest0.diags) =~= (d0 + p.diags) + rest0.diags);
        }
        loop
            invariant
                self.tokens == old(self).tokens,
                toks == tokens_view(self.tokens@),
                d0 == old(self).diags(),
                c0 == old(self).cursor as int,
                c0 < self.cursor <= self.tokens@.len(),
                ({
                    let total = parse_expr_spec(toks, c0, precedence);
                    let rest = parse_infix_loop_spec(toks, self.cursor as int, precedence, expr@);
                    &&& total.cursor == rest.cursor
                    &&& total.res == rest.res
                    &&& d0 + total.diags == self.diags() + rest.diags
                }),
            ensures
                self.tokens == old(self).tokens,
                c0 < self.cursor <= self.tokens@.len(),
                ({
                    let total = parse_expr_spec(toks, c0, precedence);
                    &&& total.res == Ok::<WithSpanView<ExprView>, ParseError>(expr@)
                    &&& total.cursor == self.cursor as int
                    &&& self.diags() == d0 + total.diags
                }),
            decreases self.tokens@.len() - self.cursor,
        {
            let ghost rest_pre = parse_infix_loop_spec(toks, self.cursor as int, precedence, expr@);
            if self.is_eof() {
                proof {
                    assert(self.diags() + Seq::<Seq<u8>>::empty() =~= self.diags());
                }
                break ;
            }
            let next_precedence = Precedence::of_kind(self.peek());
            if precedence.level() >= next_precedence.level() {
                proof {
                    assert(self.diags() + Seq::<Seq<u8>>::empty() =~= self.diags());
                }
                break ;
            }
            let ghost dpre = self.diags();
            let ghost cpre = self.cursor as int;
            let ghost epre = expr@;
            expr = match self.parse_infix(expr) {
                Ok(e2) => e2,
                Err(e) => {
                    return Err(e);
                },
            };
            proof {
                let s = parse_infix_spec(toks, cpre, epre);
                let rest_new = parse_infix_loop_spec(toks, self.cursor as int, precedence, expr@);
                assert(dpre + (s.diags + rest_new.diags) =~= (dpre + s.diags) + rest_new.diags);
                let total = parse_expr_spec(toks, c0, precedence);
                assert(d0 + total.diags =~= self.diags() + rest_new.diags);
            }
        }
        Ok(expr)
    }

    /// Prefix dispatch: literals, `nil`, `this`, identifiers and `super`
    /// go to the primary production; `!` and `-` to unary; `(` to
    /// grouping; `[` is a reserved construct; anything else records a
    /// diagnostic and fails.
    fn parse_prefix(&mut self) -> (r: Result<WithSpan<Expr>, ParseError>)
        requires
            old(self).cursor <= old(self).tokens@.len(),
        ensures
            final(self).tokens == old(self).tokens,
            old(self).cursor <= final(self).cursor <= old(self).tokens@.len(),
            r is Ok ==> old(self).cursor < final(self).cursor,
            ({
                let s = parse_prefix_spec(old(self).toks(), old(self).cursor as int);
                &&& final(self).cursor as int == s.cursor
                &&& final(self).diags() == old(self).diags() + s.diags
                &&& (match r {
                    Ok(ws) => s.res == Ok::<WithSpanView<ExprView>, ParseError>(ws@),
                    Err(e) => s.res == Err::<WithSpanView<ExprView>, ParseError>(e),
                })
            }),
        decreases self.tokens@.len() - self.cursor, 3int,
    {
        match self.peek() {
            TokenKind::Number
            | TokenKind::Nil
            | TokenKind::This
            | TokenKind::True
            | TokenKind::False
            | TokenKind::Identifier
            | TokenKind::Super
            | TokenKind::String => self.parse_primary(),
            TokenKind::Bang | TokenKind::Minus => self.parse_unary(),
            TokenKind::LeftParen => self.parse_grouping(),
            TokenKind::LeftBracket => {
                proof {
                    assert(old(self).diags() + Seq::<Seq<u8>>::empty() =~= old(self).diags());
                }
                Err(ParseError::Unsupported)
            },
            _ => {
                let m = prefix_message();
                self.error(m);
                Err(ParseError::InvalidInput)
            },
        }
    }

    /// Infix dispatch: an implemented binary operator extends `left` by
    /// the binary production; every other token that binds here belongs
    /// to a reserved construct and fails as unsupported.
    fn parse_infix(&mut self, left: WithSpan<Expr>) -> (r: Result<WithSpan<Expr>, ParseError>)
        requires
            old(self).cursor <= old(self).tokens@.len(),
        ensures
            final(self).tokens == old(self).tokens,
            old(self).cursor <= final(self).cursor <= old(self).tokens@.len(),
            r is Ok ==> old(self).cursor < final(self).cursor,
            ({
                let s = parse_infix_spec(old(self).toks(), old(self).cursor as int, left@);
                &&& final(self).cursor as int == s.cursor
                &&& final(self).diags() == old(self).diags() + s.diags
                &&& (match r {
                    Ok(ws) => s.res == Ok::<WithSpanView<ExprView>, ParseError>(ws@),
                    Err(e) => s.res == Err::<WithSpanView<ExprView>, ParseError>(e),
                })
            }),
        decreases self.tokens@.len() - self.cursor, 2int,
    {
        match self.peek() {
            TokenKind::BangEqual
            | TokenKind::EqualEqual
            | TokenKind::Less
            | TokenKind::LessEqual
            | TokenKind::Greater
            | TokenKind::GreaterEqual
            | TokenKind::Plus
            | TokenKind::Minus
            | TokenKind::Star
            | TokenKind::Slash => self.parse_binary(left),
            _ => {
                proof {
                    assert(old(self).diags() + Seq::<Seq<u8>>::empty() =~= old(self).diags());
                }
                Err(ParseError::Unsupported)
            },
        }
    }

    /// The primary production: one literal, `nil` or `this` token becomes
    /// a leaf carrying that token's span.
    fn parse_primary(&mut self) -> (r: Result<WithSpan<Expr>, ParseError>)
        requires
            old(self).cursor <= old(self).tokens@.len(),
        ensures
            final(self).tokens == old(self).tokens,
            old(self).cursor <= final(self).cursor <= old(self).tokens@.len(),
            r is Ok ==> old(self).cursor < final(self).cursor,
            ({
                let s = parse_primary_spec(old(self).toks(), old(self).cursor as int);
                &&& final(self).cursor as int == s.cursor
                &&& final(self).diags() == old(self).diags() + s.diags
                &&& (match r {
                    Ok(ws) => s.res == Ok::<WithSpanView<ExprView>, ParseError>(ws@),
                    Err(e) => s.res == Err::<WithSpanView<ExprView>, ParseError>(e),
                })
            }),
    {
        proof {
            assert(old(self).diags() + Seq::<Seq<u8>>::empty() =~= old(self).diags());
        }
        let tc = match self.advance() {
            Ok(t) => t,
            Err(e) => {
                return Err(e);
            },
        };
        let line = tc.line;
        let span = tc.span;
        match tc.value {
            Token::Nil => Ok(WithSpan::new(Expr::Nil, line, span)),
            Token::This => Ok(WithSpan::new(Expr::This, line, span)),
            Token::Number(lex) => Ok(WithSpan::new(Expr::Number(lex), line, span)),
            Token::True => Ok(WithSpan::new(Expr::Boolean(true), line, span)),
            Token::False => Ok(WithSpan::new(Expr::Boolean(false), line, span)),
            Token::String(s) => Ok(WithSpan::new(Expr::String(s), line, span)),
            _ => Err(ParseError::InvalidInput),
        }
    }

    /// The binary production: reads the operator's precedence, consumes
    /// the operator, parses the right operand at that precedence, and
    /// joins the operands under the operator, spanning from the left
    /// operand's start to the right one's end.
    fn parse_binary(&mut self, left: WithSpan<Expr>) -> (r: Result<WithSpan<Expr>, ParseError>)
        requires
            old(self).cursor <= old(self).tokens@.len(),
        ensures
            final(self).tokens == old(self).tokens,
            old(self).cursor <= final(self).cursor <= old(self).tokens@.len(),
            r is Ok ==> old(self).cursor < final(self).cursor,
            ({
                let s = parse_binary_spec(old(self).toks(), old(self).cursor as int, left@);
                &&& final(self).cursor as int == s.cursor
                &&& final(self).diags() == old(self).diags() + s.diags
                &&& (match r {
                    Ok(ws) => s.res == Ok::<WithSpanView<ExprView>, ParseError>(ws@),
                    Err(e) => s.res == Err::<WithSpanView<ExprView>, ParseError>(e),
                })
            }),
        decreases self.tokens@.len() - self.cursor, 1int,
    {
        let ghost d0 = self.diags();
        let precedence = Precedence::of_kind(self.peek());
        let operator = match self.parse_binary_op() {
            Ok(o) => o,
            Err(e) => {
                return Err(e);
            },
        };
        let ghost dop = self.diags();
        let right = match self.parse_expr(precedence) {
            Ok(x) => x,
            Err(e) => {
                proof {
                    let s1 = parse_binary_op_spec(old(self).toks(), old(self).cursor as int);
                    let s2 = parse_expr_spec(old(self).toks(), old(self).cursor as int + 1, precedence_of_kind(kind_at(old(self).toks(), old(self).cursor as int)));
                    assert(d0 + (s1.diags + s2.diags) =~= (d0 + s1.diags) + s2.diags);
                }
                return Err(e);
            },
        };
        proof {
            let s1 = parse_binary_op_spec(old(self).toks(), old(self).cursor as int);
            let s2 = parse_expr_spec(old(self).toks(), old(self).cursor as int + 1, precedence_of_kind(kind_at(old(self).toks(), old(self).cursor as int)));
            assert(d0 + (s1.diags + s2.diags) =~= (d0 + s1.diags) + s2.diags);
        }
        let line_no = left.line;
        let range = Span { start: left.span.start, end: right.span.end };
        Ok(WithSpan::new(Expr::Binary(Box::new(left), operator, Box::new(right)), line_no, range))
    }

    /// The binary-operator production: an operator token becomes its tag
    /// with the token's span; anything else records a diagnostic and
    /// fails.
    fn parse_binary_op(&mut self) -> (r: Result<WithSpan<BinaryOperator>, ParseError>)
        ensures
            final(self).tokens == old(self).tokens,
            ({
                let s = parse_binary_op_spec(old(self).toks(), old(self).cursor as int);
                &&& final(self).cursor as int == s.cursor
                &&& final(self).diags() == old(self).diags() + s.diags
                &&& (match r {
                    Ok(o) => s.res == Ok::<WithSpanView<BinaryOperator>, ParseError>(o@),
                    Err(e) => s.res == Err::<WithSpanView<BinaryOperator>, ParseError>(e),
                })
            }),
    {
        proof {
            assert(old(self).diags() + Seq::<Seq<u8>>::empty() =~= old(self).diags());
        }
        let tc = match self.advance() {
            Ok(t) => t,
            Err(e) => {
                return Err(e);
            },
        };
        let line = tc.line;
        let span = tc.span;
        let operator = match &tc.value {
            Token::Plus => Some(BinaryOperator::Plus),
            Token::Minus => Some(BinaryOperator::Minus),
            Token::Star => Some(BinaryOperator::Star),
            Token::Slash => Some(BinaryOperator::Slash),
            Token::BangEqual => Some(BinaryOperator::BangEqual),
            Token::EqualEqual => Some(BinaryOperator::EqualEqual),
            Token::Less => Some(BinaryOperator::Less),
            Token::LessEqual => Some(BinaryOperator::LessEqual),
            Token::Greater => Some(BinaryOperator::Greater),
            Token::GreaterEqual => Some(BinaryOperator::GreaterEqual),
            _ => None,
        };
        match operator {
            Some(op) => Ok(WithSpan::new(op, line, span)),
            None => {
                let m = binary_op_message(&tc);
                self.error(m);
                Err(ParseError::InvalidInput)
            },
        }
    }

    /// The grouping production: `(`, one full expression from the lowest
    /// precedence, then a required `)`; the node's span covers both
    /// parentheses.
    fn parse_grouping(&mut self) -> (r: Result<WithSpan<Expr>, ParseError>)
        requires
            old(self).cursor <= old(self).tokens@.len(),
        ensures
            final(self).tokens == old(self).tokens,
            old(self).cursor <= final(self).cursor <= old(self).tokens@.len(),
            r is Ok ==> old(self).cursor < final(self).cursor,
            ({
                let s = parse_grouping_spec(old(self).toks(), old(self).cursor as int);
                &&& final(self).cursor as int == s.cursor
                &&& final(self).diags() == old(self).diags() + s.diags
                &&& (match r {
                    Ok(ws) => s.res == Ok::<WithSpanView<ExprView>, ParseError>(ws@),
                    Err(e) => s.res == Err::<WithSpanView<ExprView>, ParseError>(e),
                })
            }),
        decreases self.tokens@.len() - self.cursor, 1int,
    {
        let ghost toks = old(self).toks();
        let ghost c0 = old(self).cursor as int;
        let ghost d0 = self.diags();
        let left_paren = match self.expect(TokenKind::LeftParen) {
            Ok(t) => t,
            Err(e) => {
                return Err(e);
            },
        };
        let inner = match self.parse_expr(Precedence::Lowest) {
            Ok(x) => x,
            Err(e) => {
                proof {
                    let s1 = expect_spec(toks, c0, TokenKind::LeftParen);
                    let s2 = parse_expr_spec(toks, c0 + 1, Precedence::Lowest);
                    assert(d0 + (s1.diags + s2.diags) =~= (d0 + s1.diags) + s2.diags);
                }
                return Err(e);
            },
        };
        let right_paren = match self.expect(TokenKind::RightParen) {
            Ok(t) => t,
            Err(e) => {
                proof {
                    let s1 = expect_spec(toks, c0, TokenKind::LeftParen);
                    let s2 = parse_expr_spec(toks, c0 + 1, Precedence::Lowest);
                    let s3 = expect_spec(toks, s2.cursor, TokenKind::RightParen);
                    assert(d0 + (s1.diags + s2.diags + s3.diags) =~= ((d0 + s1.diags) + s2.diags)
                        + s3.diags);
                }
                return Err(e);
            },
        };
        proof {
            let s1 = expect_spec(toks, c0, TokenKind::LeftParen);
            let s2 = parse_expr_spec(toks, c0 + 1, Precedence::Lowest);
            let s3 = expect_spec(toks, s2.cursor, TokenKind::RightParen);
            assert(d0 + (s1.diags + s2.diags + s3.diags) =~= ((d0 + s1.diags) + s2.diags)
                + s3.diags);
        }
        let range = Span { start: left_paren.span.start, end: right_paren.span.end };
        let line = left_paren.line;
        Ok(WithSpan::new(Expr::Grouping(Box::new(inner)), line, range))
    }

    /// The unary production: the operator, then its operand at unary
    /// precedence, spanning from the operator to the operand's end.
    fn parse_unary(&mut self) -> (r: Result<WithSpan<Expr>, ParseError>)
        requires
            old(self).cursor <= old(self).tokens@.len(),
        ensures
            final(self).tokens == old(self).tokens,
            old(self).cursor <= final(self).cursor <= old(self).tokens@.len(),
            r is Ok ==> old(self).cursor < final(self).cursor,
            ({
                let s = parse_unary_spec(old(self).toks(), old(self).cursor as int);
                &&& final(self).cursor as int == s.cursor
                &&& final(self).diags() == old(self).diags() + s.diags
                &&& (match r {
                    Ok(ws) => s.res == Ok::<WithSpanView<ExprView>, ParseError>(ws@),
                    Err(e) => s.res == Err::<WithSpanView<ExprView>, ParseError>(e),
                })
            }),
        decreases self.tokens@.len() - self.cursor, 1int,
    {
        let ghost toks = old(self).toks();
        let ghost c0 = old(self).cursor as int;
        let ghost d0 = self.diags();
        let operator = match self.parse_unary_op() {
            Ok(o) => o,
            Err(e) => {
                return Err(e);
            },
        };
        let right = match self.parse_expr(Precedence::Unary) {
            Ok(x) => x,
            Err(e) => {
                proof {
                    let s1 = parse_unary_op_spec(toks, c0);
                    let s2 = parse_expr_spec(toks, c0 + 1, Precedence::Unary);
                    assert(d0 + (s1.diags + s2.diags) =~= (d0 + s1.diags) + s2.diags);
                }
                return Err(e);
            },
        };
        proof {
            let s1 = parse_unary_op_spec(toks, c0);
            let s2 = parse_expr_spec(toks, c0 + 1, Precedence::Unary);
            assert(d0 + (s1.diags + s2.diags) =~= (d0 + s1.diags) + s2.diags);
        }
        let line = operator.line;
        let range = Span { start: operator.span.start, end: right.span.end };
        Ok(WithSpan::new(Expr::Unary(operator, Box::new(right)), line, range))
    }

    /// The unary-operator production: `-` or `!` becomes the operator with
    /// its token's span; anything else records a diagnostic and fails.
    fn parse_unary_op(&mut self) -> (r: Result<WithSpan<UnaryOperator>, ParseError>)
        ensures
            final(self).tokens == old(self).tokens,
            ({
                let s = parse_unary_op_spec(old(self).toks(), old(self).cursor as int);
                &&& final(self).cursor as int == s.cursor
                &&& final(self).diags() == old(self).diags() + s.diags
                &&& (match r {
                    Ok(o) => s.res == Ok::<WithSpanView<UnaryOperator>, ParseError>(o@),
                    Err(e) => s.res == Err::<WithSpanView<UnaryOperator>, ParseError>(e),
                })
            }),
    {
        proof {
            assert(old(self).diags() + Seq::<Seq<u8>>::empty() =~= old(self).diags());
        }
        let tc = match self.advance() {
            Ok(t) => t,
            Err(e) => {
                return Err(e);
            },
        };
        let line = tc.line;
        let span = tc.span;
        match &tc.value {
            Token::Minus => Ok(WithSpan::new(UnaryOperator::Minus, line, span)),
            Token::Bang => Ok(WithSpan::new(UnaryOperator::Bang, line, span)),
            _ => {
                let m = unary_op_message(&tc);
                self.error(m);
                Err(ParseError::InvalidInput)
            },
        }
    }
}

} // verus!
