//! Expression and statement nodes, and their canonical textual rendering:
//! the parser's observable output contract.

use vstd::prelude::*;
use vstd::string::StringSliceAdditionalSpecFns;

use crate::position::WithSpan;
use crate::position::WithSpanView;
use crate::render::bytes_to_string_lossy;
use crate::render::push_bytes;
use crate::render::push_str_bytes;
use crate::render::utf8_lossy;
use crate::token::number_repr;
use crate::token::number_repr_bytes;

verus! {

/// A prefix operator.
#[derive(Debug, Clone, Copy, PartialEq, Eq, Structural)]
pub enum UnaryOperator {
    Bang,
    Minus,
}

impl View for UnaryOperator {
    type V = UnaryOperator;

    open spec fn view(&self) -> UnaryOperator {
        *self
    }
}

/// An infix operator.
#[derive(Debug, Clone, Copy, PartialEq, Eq, Structural)]
pub enum BinaryOperator {
    Plus,
    Minus,
    Star,
    Slash,
    BangEqual,
    EqualEqual,
    Less,
    LessEqual,
    Greater,
    GreaterEqual,
}

impl View for BinaryOperator {
    type V = BinaryOperator;

    open spec fn view(&self) -> BinaryOperator {
        *self
    }
}

/// An expression node. Every child is span-annotated; a number carries the
/// bytes of its lexeme and a string the bytes between its quotes.
#[derive(Debug)]
pub enum Expr {
    Binary(Box<WithSpan<Expr>>, WithSpan<BinaryOperator>, Box<WithSpan<Expr>>),
    Grouping(Box<WithSpan<Expr>>),
    Number(Vec<u8>),
    Boolean(bool),
    Nil,
    This,
    String(Vec<u8>),
    Unary(WithSpan<UnaryOperator>, Box<WithSpan<Expr>>),
}

/// The mathematical image of an expression tree, with byte payloads as
/// sequences and positions as unbounded integers.
pub enum ExprView {
    Binary(Box<WithSpanView<ExprView>>, WithSpanView<BinaryOperator>, Box<WithSpanView<ExprView>>),
    Grouping(Box<WithSpanView<ExprView>>),
    Number(Seq<u8>),
    Boolean(bool),
    Nil,
    This,
    String(Seq<u8>),
    Unary(WithSpanView<UnaryOperator>, Box<WithSpanView<ExprView>>),
}

/// The view of a span-annotated expression.
pub open spec fn spanned_expr_view(ws: &WithSpan<Expr>) -> WithSpanView<ExprView>
    decreases ws,
{
    WithSpanView {
        value: expr_view(&ws.value),
        line: ws.line as int,
        start: ws.span.start as int,
        end: ws.span.end as int,
    }
}

/// The view of an expression node.
pub open spec fn expr_view(e: &Expr) -> ExprView
    decreases e,
{
    match e {
        Expr::Binary(l, op, r) => ExprView::Binary(
            Box::new(spanned_expr_view(&**l)),
            WithSpanView {
                value: op.value,
                line: op.line as int,
                start: op.span.start as int,
                end: op.span.end as int,
            },
            Box::new(spanned_expr_view(&**r)),
        ),
        Expr::Grouping(g) => ExprView::Grouping(Box::new(spanned_expr_view(&**g))),
        Expr::Number(lex) => ExprView::Number(lex@),
        Expr::Boolean(b) => ExprView::Boolean(*b),
        Expr::Nil => ExprView::Nil,
        Expr::This => ExprView::This,
        Expr::String(s) => ExprView::String(s@),
        Expr::Unary(op, v) => ExprView::Unary(
            WithSpanView {
                value: op.value,
                line: op.line as int,
                start: op.span.start as int,
                end: op.span.end as int,
            },
            Box::new(spanned_expr_view(&**v)),
        ),
    }
}

impl View for Expr {
    type V = ExprView;

    open spec fn view(&self) -> ExprView {
        expr_view(self)
    }
}

/// The symbol of an infix operator in the canonical rendering.
pub open spec fn binary_op_symbol(op: BinaryOperator) -> Seq<u8> {
    match op {
        BinaryOperator::Plus => ("+").spec_bytes(),
        BinaryOperator::Minus => ("-").spec_bytes(),
        BinaryOperator::Star => ("*").spec_bytes(),
        BinaryOperator::Slash => ("/").spec_bytes(),
        BinaryOperator::BangEqual => ("!=").spec_bytes(),
        BinaryOperator::EqualEqual => ("==").spec_bytes(),
        BinaryOperator::Less => ("<").spec_bytes(),
        BinaryOperator::LessEqual => ("<=").spec_bytes(),
        BinaryOperator::Greater => (">").spec_bytes(),
        BinaryOperator::GreaterEqual => (">=").spec_bytes(),
    }
}

/// The symbol of a prefix operator in the canonical rendering.
pub open spec fn unary_op_symbol(op: UnaryOperator) -> Seq<u8> {
    match op {
        UnaryOperator::Bang => ("!").spec_bytes(),
        UnaryOperator::Minus => ("-").spec_bytes(),
    }
}

/// The canonical, whitespace-exact textual form of an expression:
/// `(<op> <left> <right>)` for an infix operator, `(<op> <operand>)` for a
/// prefix one, `(group <inner>)` for a grouping, a number in its canonical
/// decimal form, and booleans, nil, this, and string contents verbatim.
pub open spec fn render_expr(e: ExprView) -> Seq<u8>
    decreases e,
{
    match e {
        ExprView::Nil => ("nil").spec_bytes(),
        ExprView::This => ("this").spec_bytes(),
        ExprView::Boolean(b) => if b {
            ("true").spec_bytes()
        } else {
            ("false").spec_bytes()
        },
        ExprView::Number(lex) => number_repr(lex),
        ExprView::String(s) => s,
        ExprView::Binary(l, op, r) => ("(").spec_bytes() + binary_op_symbol(op.value) + (
        " ").spec_bytes() + render_expr(l.value) + (" ").spec_bytes() + render_expr(r.value) + (
        ")").spec_bytes(),
        ExprView::Grouping(g) => ("(group ").spec_bytes() + render_expr(g.value) + (
        ")").spec_bytes(),
        ExprView::Unary(op, v) => ("(").spec_bytes() + unary_op_symbol(op.value) + (
        " ").spec_bytes() + render_expr(v.value) + (")").spec_bytes(),
    }
}

impl BinaryOperator {
    /// This operator's symbol.
    pub fn symbol(&self) -> (r: &'static str)
        ensures
            r.spec_bytes() == binary_op_symbol(*self),
    {
        match self {
            BinaryOperator::Plus => "+",
            BinaryOperator::Minus => "-",
            BinaryOperator::Star => "*",
            BinaryOperator::Slash => "/",
            BinaryOperator::BangEqual => "!=",
            BinaryOperator::EqualEqual => "==",
            BinaryOperator::Less => "<",
            BinaryOperator::LessEqual => "<=",
            BinaryOperator::Greater => ">",
            BinaryOperator::GreaterEqual => ">=",
        }
    }
}

impl UnaryOperator {
    /// This operator's symbol.
    pub fn symbol(&self) -> (r: &'static str)
        ensures
            r.spec_bytes() == unary_op_symbol(*self),
    {
        match self {
            UnaryOperator::Bang => "!",
            UnaryOperator::Minus => "-",
        }
    }
}

/// Appends the canonical textual form of the expression.
fn render_into(e: &Expr, out: &mut Vec<u8>)
    ensures
        final(out)@ == old(out)@ + render_expr(expr_view(e)),
    decreases e,
{
    let ghost pre = out@;
    match e {
        Expr::Nil => push_str_bytes(out, "nil"),
        Expr::This => push_str_bytes(out, "this"),
        Expr::Boolean(b) => {
            if *b {
                push_str_bytes(out, "true");
            } else {
                push_str_bytes(out, "false");
            }
        },
        Expr::Number(lex) => {
            let repr = number_repr_bytes(lex.as_slice());
            push_bytes(out, repr.as_slice());
        },
        Expr::String(s) => push_bytes(out, s.as_slice()),
        Expr::Binary(l, op, r) => {
            push_str_bytes(out, "(");
            push_str_bytes(out, op.value.symbol());
            push_str_bytes(out, " ");
            render_into(&l.value, out);
            push_str_bytes(out, " ");
            render_into(&r.value, out);
            push_str_bytes(out, ")");
        },
        Expr::Grouping(g) => {
            push_str_bytes(out, "(group ");
            render_into(&g.value, out);
            push_str_bytes(out, ")");
        },
        Expr::Unary(op, v) => {
            push_str_bytes(out, "(");
            push_str_bytes(out, op.value.symbol());
            push_str_bytes(out, " ");
            render_into(&v.value, out);
            push_str_bytes(out, ")");
        },
    }
    proof {
        assert(out@ =~= pre + render_expr(expr_view(e)));
    }
}

impl Expr {
    /// The canonical textual form, as UTF-8 bytes.
    pub fn render_bytes(&self) -> (r: Vec<u8>)
        ensures
            r@ == render_expr(expr_view(self)),
    {
        let mut out: Vec<u8> = Vec::new();
        render_into(self, &mut out);
        out
    }

    /// The canonical textual form, as text.
    pub fn render_string(&self) -> (r: String)
        ensures
            r@ == utf8_lossy(render_expr(expr_view(self))),
    {
        let bytes = self.render_bytes();
        bytes_to_string_lossy(&bytes)
    }
}

/// A statement: only the expression statement exists in this grammar.
#[derive(Debug)]
pub enum Stmt {
    Expression(Box<WithSpan<Expr>>),
}

impl Stmt {
    /// The canonical textual form of the statement's expression.
    pub fn render_bytes(&self) -> (r: Vec<u8>)
        ensures
            ({
                match self {
                    Stmt::Expression(e) => r@ == render_expr(expr_view(&e.value)),
                }
            }),
    {
        match self {
            Stmt::Expression(e) => e.value.render_bytes(),
        }
    }
}

/// A whole program: a list of span-annotated statements.
pub type Ast = Vec<WithSpan<Stmt>>;

} // verus!
