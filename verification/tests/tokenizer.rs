use lox_syntax::LoxError;
use lox_syntax::Lexer;
use lox_syntax::Span;
use lox_syntax::Token;
use lox_syntax::WithSpan;

fn lexer(input: &str) -> Lexer {
    Lexer::new(input.as_bytes().to_vec())
}

fn spanned(token: Token, line: usize, start: usize, end: usize) -> Option<WithSpan<Token>> {
    Some(WithSpan::new(token, line, Span::new(start, end)))
}

#[test]
fn test_lexer_empty() {
    let input = "";
    let mut lx = lexer(input);
    assert_eq!(lx.next_token(), spanned(Token::Eof, 1, 0, 0));
    assert_eq!(lx.next_token(), None);
}

#[test]
fn test_lexer_brace() {
    let input = "())({}][()]";
    let mut lx = lexer(input);
    assert_eq!(lx.next_token(), spanned(Token::LeftParen, 1, 0, 1));
    assert_eq!(lx.next_token(), spanned(Token::RightParen, 1, 1, 2));
    assert_eq!(lx.next_token(), spanned(Token::RightParen, 1, 2, 3));
    assert_eq!(lx.next_token(), spanned(Token::LeftParen, 1, 3, 4));
    assert_eq!(lx.next_token(), spanned(Token::LeftBrace, 1, 4, 5));
    assert_eq!(lx.next_token(), spanned(Token::RightBrace, 1, 5, 6));
    assert_eq!(lx.next_token(), spanned(Token::RightBracket, 1, 6, 7));
    assert_eq!(lx.next_token(), spanned(Token::LeftBracket, 1, 7, 8));
    assert_eq!(lx.next_token(), spanned(Token::LeftParen, 1, 8, 9));
    assert_eq!(lx.next_token(), spanned(Token::RightParen, 1, 9, 10));
    assert_eq!(lx.next_token(), spanned(Token::RightBracket, 1, 10, 11));
    assert_eq!(lx.next_token(), spanned(Token::Eof, 1, 10, 10));
    assert_eq!(lx.next_token(), None);
}

#[test]
fn test_lexer_single_or_two() {
    let input = "!!=>>=<=<+==</,-;*.*";
    let mut lx = lexer(input);
    assert_eq!(lx.next_token(), spanned(Token::Bang, 1, 0, 1));
    assert_eq!(lx.next_token(), spanned(Token::BangEqual, 1, 1, 3));
    assert_eq!(lx.next_token(), spanned(Token::Greater, 1, 3, 4));
    assert_eq!(lx.next_token(), spanned(Token::GreaterEqual, 1, 4, 6));
    assert_eq!(lx.next_token(), spanned(Token::LessEqual, 1, 6, 8));
    assert_eq!(lx.next_token(), spanned(Token::Less, 1, 8, 9));
    assert_eq!(lx.next_token(), spanned(Token::Plus, 1, 9, 10));
    assert_eq!(lx.next_token(), spanned(Token::EqualEqual, 1, 10, 12));
    assert_eq!(lx.next_token(), spanned(Token::Less, 1, 12, 13));
    assert_eq!(lx.next_token(), spanned(Token::Slash, 1, 13, 14));
    assert_eq!(lx.next_token(), spanned(Token::Comma, 1, 14, 15));
    assert_eq!(lx.next_token(), spanned(Token::Minus, 1, 15, 16));
    assert_eq!(lx.next_token(), spanned(Token::Semicolon, 1, 16, 17));
    assert_eq!(lx.next_token(), spanned(Token::Star, 1, 17, 18));
    assert_eq!(lx.next_token(), spanned(Token::Dot, 1, 18, 19));
    assert_eq!(lx.next_token(), spanned(Token::Star, 1, 19, 20));
    assert_eq!(lx.next_token(), spanned(Token::Eof, 1, 19, 19));
    assert_eq!(lx.next_token(), None);
}

#[test]
fn test_lexer_line() {
    let input = "++\n-==\n\n()\n*\n;;";
    let mut lx = lexer(input);
    assert_eq!(lx.get_line(), 1);
    assert_eq!(lx.next_token(), spanned(Token::Plus, 1, 0, 1));
    assert_eq!(lx.get_line(), 1);
    assert_eq!(lx.next_token(), spanned(Token::Plus, 1, 1, 2));
    assert_eq!(lx.get_line(), 1);
    assert_eq!(lx.next_token(), spanned(Token::Minus, 2, 3, 4));
    assert_eq!(lx.get_line(), 2);
    assert_eq!(lx.next_token(), spanned(Token::EqualEqual, 2, 4, 6));
    assert_eq!(lx.get_line(), 2);
    assert_eq!(lx.next_token(), spanned(Token::LeftParen, 4, 8, 9));
    assert_eq!(lx.get_line(), 4);
    assert_eq!(lx.next_token(), spanned(Token::RightParen, 4, 9, 10));
    assert_eq!(lx.get_line(), 4);
    assert_eq!(lx.next_token(), spanned(Token::Star, 5, 11, 12));
    assert_eq!(lx.get_line(), 5);
    assert_eq!(lx.next_token(), spanned(Token::Semicolon, 6, 13, 14));
    assert_eq!(lx.get_line(), 6);
    assert_eq!(lx.next_token(), spanned(Token::Semicolon, 6, 14, 15));
    assert_eq!(lx.get_line(), 6);
    assert_eq!(lx.next_token(), spanned(Token::Eof, 6, 14, 14));
    assert_eq!(lx.get_line(), 6);
    assert_eq!(lx.next_token(), None);
    assert_eq!(lx.get_line(), 6);
    assert_eq!(lx.next_token(), None);
    assert_eq!(lx.get_line(), 6);
}

#[test]
fn test_lexer_string() {
    let input = r#""hello""#;
    let mut lx = lexer(input);
    assert_eq!(
        lx.next_token(),
        spanned(Token::String(b"hello".to_vec()), 1, 0, 7)
    );
    assert_eq!(lx.next_token(), spanned(Token::Eof, 1, 6, 6));
    let input = r#"+"""hello // world""#;
    let mut lx = lexer(input);
    assert_eq!(lx.next_token(), spanned(Token::Plus, 1, 0, 1));
    assert_eq!(lx.next_token(), spanned(Token::String(b"".to_vec()), 1, 1, 3));
    assert_eq!(
        lx.next_token(),
        spanned(Token::String(b"hello // world".to_vec()), 1, 3, 19)
    );
    assert_eq!(lx.next_token(), spanned(Token::Eof, 1, 18, 18));
    assert_eq!(lx.next_token(), None);
}

#[test]
fn test_lexer_error_collection() {
    // Lexing continues past an invalid character: the error is an ordinary
    // token in the stream, and the following number is still produced.
    let input = "@1";
    let mut lx = lexer(input);
    assert_eq!(
        lx.next_token(),
        spanned(Token::Error(LoxError::InvalidChar(1, '@')), 1, 0, 1)
    );
    assert_eq!(lx.next_token(), spanned(Token::Number(b"1".to_vec()), 1, 1, 2));
    assert_eq!(lx.next_token(), spanned(Token::Eof, 1, 1, 1));
    assert_eq!(lx.next_token(), None);
}

#[test]
fn test_lexer_unterminated_string() {
    // No partial string token: exactly one error token, then end of input.
    let input = "\"abc";
    let mut lx = lexer(input);
    assert_eq!(
        lx.next_token(),
        spanned(Token::Error(LoxError::UnterminatedStr(1)), 1, 0, 4)
    );
    assert_eq!(lx.next_token(), spanned(Token::Eof, 1, 3, 3));
    assert_eq!(lx.next_token(), None);
}

#[test]
fn test_lexer_eof_idempotent() {
    let input = "+";
    let mut lx = lexer(input);
    assert_eq!(lx.next_token(), spanned(Token::Plus, 1, 0, 1));
    assert_eq!(lx.next_token(), spanned(Token::Eof, 1, 0, 0));
    for _ in 0..16 {
        assert_eq!(lx.next_token(), None);
    }
}

#[test]
fn test_lexer_keywords_and_identifiers() {
    let input = "var x1 import whilex";
    let mut lx = lexer(input);
    assert_eq!(lx.next_token(), spanned(Token::Var, 1, 0, 3));
    assert_eq!(
        lx.next_token(),
        spanned(Token::Identifier(b"x1".to_vec()), 1, 4, 6)
    );
    assert_eq!(lx.next_token(), spanned(Token::Import, 1, 7, 13));
    assert_eq!(
        lx.next_token(),
        spanned(Token::Identifier(b"whilex".to_vec()), 1, 14, 20)
    );
    assert_eq!(lx.next_token(), spanned(Token::Eof, 1, 19, 19));
}

#[test]
fn test_lexer_numbers_and_trailing_dot() {
    // A dot not followed by a digit is left for a Dot token.
    let input = "12.5 7. 0.25";
    let mut lx = lexer(input);
    assert_eq!(
        lx.next_token(),
        spanned(Token::Number(b"12.5".to_vec()), 1, 0, 4)
    );
    assert_eq!(lx.next_token(), spanned(Token::Number(b"7".to_vec()), 1, 5, 6));
    assert_eq!(lx.next_token(), spanned(Token::Dot, 1, 6, 7));
    assert_eq!(
        lx.next_token(),
        spanned(Token::Number(b"0.25".to_vec()), 1, 8, 12)
    );
    assert_eq!(lx.next_token(), spanned(Token::Eof, 1, 11, 11));
}

#[test]
fn test_lexer_comments() {
    let input = "1 // rest of the line\n2";
    let mut lx = lexer(input);
    assert_eq!(lx.next_token(), spanned(Token::Number(b"1".to_vec()), 1, 0, 1));
    assert_eq!(lx.next_token(), spanned(Token::Number(b"2".to_vec()), 2, 22, 23));
    assert_eq!(lx.next_token(), spanned(Token::Eof, 2, 22, 22));
    assert_eq!(lx.next_token(), None);
}

#[test]
fn test_lexer_string_with_multibyte_text() {
    // Bytes inside a string literal pass through opaquely; the span counts
    // bytes, and the display decodes them as UTF-8.
    let mut lx = lexer("\"h\u{e9}llo\"");
    let tok = lx.next_token().unwrap();
    assert_eq!(tok.get_span(), Span::new(0, 8));
    assert_eq!(
        tok.get_value().display_string().as_str(),
        "STRING \"h\u{e9}llo\" h\u{e9}llo"
    );
}

#[test]
fn test_lexer_invalid_non_ascii_byte() {
    let mut lx = Lexer::new(vec![0xE9]);
    let tok = lx.next_token().unwrap();
    assert_eq!(*tok.get_value(), Token::Error(LoxError::InvalidChar(1, '\u{e9}')));
    assert_eq!(
        tok.get_value().display_string().as_str(),
        "[line 1] Error: Unexpected character: \u{e9}"
    );
}

#[test]
fn test_tokenize_collects_all() {
    let tokens = lox_syntax::tokenize("1+2".as_bytes().to_vec());
    assert_eq!(tokens.len(), 4);
    assert_eq!(*tokens[0].get_value(), Token::Number(b"1".to_vec()));
    assert_eq!(*tokens[1].get_value(), Token::Plus);
    assert_eq!(*tokens[2].get_value(), Token::Number(b"2".to_vec()));
    assert_eq!(*tokens[3].get_value(), Token::Eof);
}
