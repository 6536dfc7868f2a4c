//! Source positions: a byte range and a line number attached to a value.

use vstd::prelude::*;

verus! {

/// A half-open byte range `[start, end)` into the source buffer.
#[derive(Clone, Copy, Debug, PartialEq, Eq, Structural)]
pub struct Span {
    pub start: usize,
    pub end: usize,
}

impl Span {
    /// Builds the range `[start, end)`.
    pub fn new(start: usize, end: usize) -> (r: Span)
        ensures
            r.start == start,
            r.end == end,
    {
        Span { start, end }
    }
}

/// The mathematical image of a `WithSpan`: the wrapped value's view together
/// with its line number and byte range as unbounded integers.
pub struct WithSpanView<V> {
    pub value: V,
    pub line: int,
    pub start: int,
    pub end: int,
}

/// A value paired with the line number and byte range of the source text it
/// came from. Spans are value types: combining two spanned values copies them
/// into the combined node.
#[derive(Debug, PartialEq)]
pub struct WithSpan<T> {
    pub value: T,
    pub line: usize,
    pub span: Span,
}

impl<T: View> View for WithSpan<T> {
    type V = WithSpanView<T::V>;

    open spec fn view(&self) -> WithSpanView<T::V> {
        WithSpanView {
            value: self.value.view(),
            line: self.line as int,
            start: self.span.start as int,
            end: self.span.end as int,
        }
    }
}

impl<T> From<(T, usize, Span)> for WithSpan<T> {
    /// A spanned value from its three parts.
    fn from(parts: (T, usize, Span)) -> (r: WithSpan<T>)
        ensures
            r.value == parts.0,
            r.line == parts.1,
            r.span == parts.2,
    {
        WithSpan { value: parts.0, line: parts.1, span: parts.2 }
    }
}

impl<T> vstd::std_specs::convert::FromSpecImpl<(T, usize, Span)> for WithSpan<T> {
    open spec fn obeys_from_spec() -> bool {
        true
    }

    open spec fn from_spec(parts: (T, usize, Span)) -> WithSpan<T> {
        WithSpan { value: parts.0, line: parts.1, span: parts.2 }
    }
}

impl<T> WithSpan<T> {
    /// Wraps `value` with the given line number and byte range.
    pub fn new(value: T, line: usize, span: Span) -> (r: Self)
        ensures
            r.value == value,
            r.line == line,
            r.span == span,
    {
        Self { value, line, span }
    }

    /// Wraps `value` with the default position: line 1, empty range `[0, 0)`.
    pub fn empty(value: T) -> (r: Self)
        ensures
            r.value == value,
            r.line == 1,
            r.span == (Span { start: 0, end: 0 }),
    {
        Self::new(value, 1, Span { start: 0, end: 0 })
    }

    /// Replaces the wrapped value, keeping line and range.
    pub fn value(self, value: T) -> (r: Self)
        ensures
            r.value == value,
            r.line == self.line,
            r.span == self.span,
    {
        Self { value, ..self }
    }

    /// Replaces the line number, keeping value and range.
    pub fn line(self, line: usize) -> (r: Self)
        ensures
            r.value == self.value,
            r.line == line,
            r.span == self.span,
    {
        Self { line, ..self }
    }

    /// Replaces the byte range, keeping value and line.
    pub fn span(self, span: Span) -> (r: Self)
        ensures
            r.value == self.value,
            r.line == self.line,
            r.span == span,
    {
        Self { span, ..self }
    }

    /// The wrapped value.
    pub fn get_value(&self) -> (r: &T)
        ensures
            *r == self.value,
    {
        &self.value
    }

    /// The line number.
    pub fn get_line(&self) -> (r: usize)
        ensures
            r == self.line,
    {
        self.line
    }

    /// The byte range.
    pub fn get_span(&self) -> (r: Span)
        ensures
            r == self.span,
    {
        self.span
    }
}

} // verus!
