use lox_syntax::tokenize;
use lox_syntax::Expr;
use lox_syntax::Stmt;
use lox_syntax::ParseError;
use lox_syntax::Parser;
use lox_syntax::Span;
use lox_syntax::Token;
use lox_syntax::TokenKind;
use lox_syntax::WithSpan;

fn parse_render(input: &str) -> String {
    let tokens = tokenize(input.as_bytes().to_vec());
    let mut parser = Parser::new(tokens);
    parser.parse().unwrap().get_value().render_string()
}

#[test]
fn test_parse() {
    let tk = tokenize("2+3.7".as_bytes().to_vec());
    let mut parser = Parser::new(tk);
    assert_eq!(
        parser.parse().unwrap().get_value().render_string().as_str(),
        "(+ 2.0 3.7)"
    );
}

#[test]
fn test_parse_left_associative() {
    assert_eq!(parse_render("1-2-3"), "(- (- 1.0 2.0) 3.0)");
}

#[test]
fn test_parse_precedence() {
    assert_eq!(parse_render("1+2*3"), "(+ 1.0 (* 2.0 3.0))");
}

#[test]
fn test_parse_unary_binds_tighter() {
    assert_eq!(parse_render("-1+2"), "(+ (- 1.0) 2.0)");
    assert_eq!(parse_render("!true==false"), "(== (! true) false)");
}

#[test]
fn test_parse_comparisons() {
    assert_eq!(parse_render("1<2==3>=4"), "(== (< 1.0 2.0) (>= 3.0 4.0))");
    assert_eq!(parse_render("1<=2!=2/1"), "(!= (<= 1.0 2.0) (/ 2.0 1.0))");
}

#[test]
fn test_parse_literals() {
    assert_eq!(parse_render("nil"), "nil");
    assert_eq!(parse_render("this"), "this");
    assert_eq!(parse_render("true"), "true");
    assert_eq!(parse_render("\"hi\""), "hi");
    assert_eq!(parse_render("007"), "7.0");
    assert_eq!(parse_render("1.50"), "1.5");
}

#[test]
fn test_parse_grouping_span_union() {
    // The grouping node's span covers both parentheses.
    let tokens = tokenize("(1+2)".as_bytes().to_vec());
    let mut parser = Parser::new(tokens);
    let ws = parser.parse().unwrap();
    assert_eq!(ws.get_span(), Span::new(0, 5));
    assert!(matches!(ws.get_value(), Expr::Grouping(_)));
    assert_eq!(ws.get_value().render_string().as_str(), "(group (+ 1.0 2.0))");
}

#[test]
fn test_parse_binary_span_union() {
    let tokens = tokenize("10+200".as_bytes().to_vec());
    let mut parser = Parser::new(tokens);
    let ws = parser.parse().unwrap();
    assert_eq!(ws.get_span(), Span::new(0, 6));
    assert_eq!(ws.get_line(), 1);
}

#[test]
fn test_parse_missing_paren_diagnostic() {
    let tokens = tokenize("(1".as_bytes().to_vec());
    let mut parser = Parser::new(tokens);
    assert_eq!(parser.parse().unwrap_err(), ParseError::InvalidInput);
    assert_eq!(parser.diagnostics.len(), 1);
    assert_eq!(
        parser.diagnostics[0],
        b"[line 1] Error at EOF  null: Expect expression.".to_vec()
    );
}

#[test]
fn test_parse_empty_input_fails() {
    let tokens = tokenize("".as_bytes().to_vec());
    let mut parser = Parser::new(tokens);
    assert_eq!(parser.parse().unwrap_err(), ParseError::InvalidInput);
    assert_eq!(parser.diagnostics.len(), 1);
    assert_eq!(parser.diagnostics[0], b"Unexpected token.".to_vec());
}

#[test]
fn test_parse_reserved_constructs_unsupported() {
    let tokens = tokenize("[1]".as_bytes().to_vec());
    let mut parser = Parser::new(tokens);
    assert_eq!(parser.parse().unwrap_err(), ParseError::Unsupported);

    let tokens = tokenize("1 or 2".as_bytes().to_vec());
    let mut parser = Parser::new(tokens);
    assert_eq!(parser.parse().unwrap_err(), ParseError::Unsupported);
}

#[test]
fn test_parse_identifier_has_no_production() {
    let tokens = tokenize("foo".as_bytes().to_vec());
    let mut parser = Parser::new(tokens);
    assert_eq!(parser.parse().unwrap_err(), ParseError::InvalidInput);
}

#[test]
fn test_parser_cursor_primitives() {
    let tokens = tokenize("1+2".as_bytes().to_vec());
    let mut parser = Parser::new(tokens);
    assert_eq!(parser.peek(), TokenKind::Number);
    assert!(parser.check(TokenKind::Number));
    assert!(!parser.check(TokenKind::Plus));
    assert!(!parser.is_eof());
    assert_eq!(
        *parser.peek_token().get_value(),
        Token::Number(b"1".to_vec())
    );
    assert_eq!(parser.advance().unwrap().get_span(), Span::new(0, 1));
    assert_eq!(parser.optionally(TokenKind::Plus), Ok(true));
    assert_eq!(parser.optionally(TokenKind::Plus), Ok(false));
    assert_eq!(parser.expect(TokenKind::Number).unwrap().get_span(), Span::new(2, 3));
    assert!(parser.is_eof());
    assert_eq!(parser.peek(), TokenKind::Eof);
}

#[test]
fn test_parser_advance_past_end() {
    let mut parser = Parser::new(Vec::new());
    assert_eq!(parser.advance().unwrap_err(), ParseError::NotFound);
    assert_eq!(parser.peek(), TokenKind::Eof);
    assert!(!parser.is_eof());
    assert_eq!(*parser.peek_token().get_value(), Token::Eof);
    assert_eq!(parser.peek_token(), WithSpan::empty(Token::Eof));
}

#[test]
fn test_statement_renders_its_expression() {
    let tokens = tokenize("1+2".as_bytes().to_vec());
    let mut parser = Parser::new(tokens);
    let ws = parser.parse().unwrap();
    let stmt = Stmt::Expression(Box::new(ws));
    assert_eq!(stmt.render_bytes(), b"(+ 1.0 2.0)".to_vec());
}

#[test]
fn test_withspan_accessors_and_builders() {
    let ws = WithSpan::new(Token::Plus, 3, Span::new(5, 6));
    assert_eq!(*ws.get_value(), Token::Plus);
    assert_eq!(ws.get_line(), 3);
    assert_eq!(ws.get_span(), Span::new(5, 6));
    let ws = ws.value(Token::Minus).line(4).span(Span::new(6, 7));
    assert_eq!(*ws.get_value(), Token::Minus);
    assert_eq!(ws.get_line(), 4);
    assert_eq!(ws.get_span(), Span::new(6, 7));
    let e = WithSpan::empty(Token::Eof);
    assert_eq!(e.get_line(), 1);
    assert_eq!(e.get_span(), Span::new(0, 0));
    let ws: WithSpan<Token> = (Token::Star, 2, Span::new(1, 2)).into();
    assert_eq!(ws, WithSpan::new(Token::Star, 2, Span::new(1, 2)));
}
