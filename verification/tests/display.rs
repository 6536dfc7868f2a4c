use lox_syntax::LoxError;
use lox_syntax::TokenKind;
use lox_syntax::Token;

#[test]
fn test_token_display_punctuation() {
    assert_eq!(Token::LeftParen.display_string().as_str(), "LEFT_PAREN ( null");
    assert_eq!(Token::BangEqual.display_string().as_str(), "BANG_EQUAL != null");
    assert_eq!(Token::Semicolon.display_string().as_str(), "SEMICOLON ; null");
    assert_eq!(Token::Eof.display_string().as_str(), "EOF  null");
}

#[test]
fn test_token_display_keywords() {
    assert_eq!(Token::And.display_string().as_str(), "AND and null");
    assert_eq!(Token::Import.display_string().as_str(), "IMPORT import null");
    assert_eq!(Token::While.display_string().as_str(), "WHILE while null");
}

#[test]
fn test_token_display_literals() {
    assert_eq!(
        Token::Identifier(b"foo".to_vec()).display_string().as_str(),
        "IDENTIFIER foo null"
    );
    assert_eq!(
        Token::String(b"hello".to_vec()).display_string().as_str(),
        "STRING \"hello\" hello"
    );
    assert_eq!(
        Token::Number(b"3".to_vec()).display_string().as_str(),
        "NUMBER 3 3.0"
    );
    assert_eq!(
        Token::Number(b"3.70".to_vec()).display_string().as_str(),
        "NUMBER 3.70 3.7"
    );
    assert_eq!(
        Token::Number(b"007".to_vec()).display_string().as_str(),
        "NUMBER 007 7.0"
    );
    assert_eq!(
        Token::Number(b"2.000".to_vec()).display_string().as_str(),
        "NUMBER 2.000 2.0"
    );
}

#[test]
fn test_error_display() {
    assert_eq!(
        Token::Error(LoxError::InvalidChar(1, '@')).display_string().as_str(),
        "[line 1] Error: Unexpected character: @"
    );
    assert_eq!(
        Token::Error(LoxError::UnterminatedStr(12)).display_string().as_str(),
        "[line 12] Error: Unterminated string."
    );
    assert_eq!(
        LoxError::InvalidChar(3, '#').display_bytes(),
        b"[line 3] Error: Unexpected character: #".to_vec()
    );
}

#[test]
fn test_token_kind_display() {
    assert_eq!(TokenKind::LeftBrace.display_str(), "'{'");
    assert_eq!(TokenKind::EqualEqual.display_str(), "'=='");
    assert_eq!(TokenKind::Identifier.display_str(), "identifier");
    assert_eq!(TokenKind::Nil.display_str(), "nil");
    assert_eq!(TokenKind::Eof.display_str(), "<EOF>");
    assert_eq!(TokenKind::Error.display_str(), "<Unknown>");
}

#[test]
fn test_token_kind_projection() {
    assert_eq!(Token::Number(b"1".to_vec()).kind(), TokenKind::Number);
    assert_eq!(Token::Identifier(b"a".to_vec()).kind(), TokenKind::Identifier);
    assert_eq!(Token::Error(LoxError::UnterminatedStr(1)).kind(), TokenKind::Error);
    assert_eq!(Token::LessEqual.kind(), TokenKind::LessEqual);
}

#[test]
fn test_keyword_lookup() {
    assert_eq!(Token::from_keyword(b"and"), Some(Token::And));
    assert_eq!(Token::from_keyword(b"import"), Some(Token::Import));
    assert_eq!(Token::from_keyword(b"foo"), None);
    assert_eq!(Token::from_keyword(b""), None);
}

#[test]
fn test_error_from_pair() {
    assert_eq!(LoxError::from((7, 'x')), LoxError::InvalidChar(7, 'x'));
}

#[test]
fn test_token_predicates() {
    assert!(Token::Error(LoxError::UnterminatedStr(1)).is_err());
    assert!(!Token::Error(LoxError::UnterminatedStr(1)).is_ok());
    assert!(Token::Plus.is_ok());
    assert!(!Token::Plus.is_err());
    assert!(Token::Eof.is_eof());
    assert!(!Token::Nil.is_eof());
}
