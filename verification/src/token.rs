//! The token model: the token value enum (carrying lexeme payloads for
//! literals), its payload-free kind used for grammar dispatch and precedence
//! lookup, and the human-readable display form of each token.

use vstd::prelude::*;
use vstd::string::StringSliceAdditionalSpecFns;

use crate::error::lox_error_display;
use crate::error::LoxError;
use crate::render::bytes_eq_str;
use crate::render::clone_bytes;
use crate::render::push_bytes;
use crate::render::push_str_bytes;

verus! {

/// A token of the expression language. Literal-carrying variants hold the
/// raw bytes of their text: an identifier or number holds its lexeme, a
/// string holds the text between the quotes.
#[derive(Debug, PartialEq)]
pub enum Token {
    // Single-character tokens.
    LeftParen,
    RightParen,
    LeftBrace,
    RightBrace,
    LeftBracket,
    RightBracket,
    Comma,
    Dot,
    Minus,
    Plus,
    Semicolon,
    Slash,
    Star,
    // One or two character tokens.
    Bang,
    BangEqual,
    Equal,
    EqualEqual,
    Greater,
    GreaterEqual,
    Less,
    LessEqual,
    // Keywords.
    And,
    Class,
    Else,
    False,
    Fun,
    For,
    If,
    Nil,
    Or,
    Print,
    Return,
    Super,
    This,
    True,
    Var,
    While,
    Import,
    // Literals.
    Identifier(Vec<u8>),
    String(Vec<u8>),
    Number(Vec<u8>),
    Error(LoxError),
    Eof,
}

/// The mathematical image of a `Token`: the same tag, with each byte
/// payload as a sequence.
pub enum TokenView {
    LeftParen,
    RightParen,
    LeftBrace,
    RightBrace,
    LeftBracket,
    RightBracket,
    Comma,
    Dot,
    Minus,
    Plus,
    Semicolon,
    Slash,
    Star,
    Bang,
    BangEqual,
    Equal,
    EqualEqual,
    Greater,
    GreaterEqual,
    Less,
    LessEqual,
    And,
    Class,
    Else,
    False,
    Fun,
    For,
    If,
    Nil,
    Or,
    Print,
    Return,
    Super,
    This,
    True,
    Var,
    While,
    Import,
    Identifier(Seq<u8>),
    String(Seq<u8>),
    Number(Seq<u8>),
    Error(LoxError),
    Eof,
}

impl View for Token {
    type V = TokenView;

    open spec fn view(&self) -> TokenView {
        match self {
            Token::LeftParen => TokenView::LeftParen,
            Token::RightParen => TokenView::RightParen,
            Token::LeftBrace => TokenView::LeftBrace,
            Token::RightBrace => TokenView::RightBrace,
            Token::LeftBracket => TokenView::LeftBracket,
            Token::RightBracket => TokenView::RightBracket,
            Token::Comma => TokenView::Comma,
            Token::Dot => TokenView::Dot,
            Token::Minus => TokenView::Minus,
            Token::Plus => TokenView::Plus,
            Token::Semicolon => TokenView::Semicolon,
            Token::Slash => TokenView::Slash,
            Token::Star => TokenView::Star,
            Token::Bang => TokenView::Bang,
            Token::BangEqual => TokenView::BangEqual,
            Token::Equal => TokenView::Equal,
            Token::EqualEqual => TokenView::EqualEqual,
            Token::Greater => TokenView::Greater,
            Token::GreaterEqual => TokenView::GreaterEqual,
            Token::Less => TokenView::Less,
            Token::LessEqual => TokenView::LessEqual,
            Token::And => TokenView::And,
            Token::Class => TokenView::Class,
            Token::Else => TokenView::Else,
            Token::False => TokenView::False,
            Token::Fun => TokenView::Fun,
            Token::For => TokenView::For,
            Token::If => TokenView::If,
            Token::Nil => TokenView::Nil,
            Token::Or => TokenView::Or,
            Token::Print => TokenView::Print,
            Token::Return => TokenView::Return,
            Token::Super => TokenView::Super,
            Token::This => TokenView::This,
            Token::True => TokenView::True,
            Token::Var => TokenView::Var,
            Token::While => TokenView::While,
            Token::Import => TokenView::Import,
            Token::Identifier(s) => TokenView::Identifier(s@),
            Token::String(s) => TokenView::String(s@),
            Token::Number(s) => TokenView::Number(s@),
            Token::Error(e) => TokenView::Error(*e),
            Token::Eof => TokenView::Eof,
        }
    }
}

impl Clone for Token {
    /// An equal token; byte payloads are copied.
    fn clone(&self) -> (r: Token)
        ensures
            r@ == self@,
    {
        match self {
            Token::LeftParen => Token::LeftParen,
            Token::RightParen => Token::RightParen,
            Token::LeftBrace => Token::LeftBrace,
            Token::RightBrace => Token::RightBrace,
            Token::LeftBracket => Token::LeftBracket,
            Token::RightBracket => Token::RightBracket,
            Token::Comma => Token::Comma,
            Token::Dot => Token::Dot,
            Token::Minus => Token::Minus,
            Token::Plus => Token::Plus,
            Token::Semicolon => Token::Semicolon,
            Token::Slash => Token::Slash,
            Token::Star => Token::Star,
            Token::Bang => Token::Bang,
            Token::BangEqual => Token::BangEqual,
            Token::Equal => Token::Equal,
            Token::EqualEqual => Token::EqualEqual,
            Token::Greater => Token::Greater,
            Token::GreaterEqual => Token::GreaterEqual,
            Token::Less => Token::Less,
            Token::LessEqual => Token::LessEqual,
            Token::And => Token::And,
            Token::Class => Token::Class,
            Token::Else => Token::Else,
            Token::False => Token::False,
            Token::Fun => Token::Fun,
            Token::For => Token::For,
            Token::If => Token::If,
            Token::Nil => Token::Nil,
            Token::Or => Token::Or,
            Token::Print => Token::Print,
            Token::Return => Token::Return,
            Token::Super => Token::Super,
            Token::This => Token::This,
            Token::True => Token::True,
            Token::Var => Token::Var,
            Token::While => Token::While,
            Token::Import => Token::Import,
            Token::Identifier(s) => Token::Identifier(clone_bytes(s)),
            Token::String(s) => Token::String(clone_bytes(s)),
            Token::Number(s) => Token::Number(clone_bytes(s)),
            Token::Error(e) => Token::Error(*e),
            Token::Eof => Token::Eof,
        }
    }
}

/// A payload-free projection of `Token`, used for precedence lookup and
/// grammar dispatch; the literal-carrying variants collapse to their tag.
#[derive(Copy, Clone, Debug, PartialEq, Eq, Structural)]
pub enum TokenKind {
    // Single-character tokens.
    LeftParen,
    RightParen,
    LeftBrace,
    RightBrace,
    LeftBracket,
    RightBracket,
    Comma,
    Dot,
    Minus,
    Plus,
    Semicolon,
    Slash,
    Star,
    // One or two character tokens.
    Bang,
    BangEqual,
    Equal,
    EqualEqual,
    Greater,
    GreaterEqual,
    Less,
    LessEqual,
    // Literals.
    Identifier,
    String,
    Number,
    // Keywords.
    And,
    Class,
    Else,
    False,
    Fun,
    For,
    If,
    Nil,
    Or,
    Print,
    Return,
    Super,
    This,
    True,
    Var,
    While,
    Import,
    // Other.
    Error,
    Eof,
}

/// The kind of a token: its tag with any payload dropped.
pub open spec fn kind_of(t: TokenView) -> TokenKind {
    match t {
        TokenView::LeftParen => TokenKind::LeftParen,
        TokenView::RightParen => TokenKind::RightParen,
        TokenView::LeftBrace => TokenKind::LeftBrace,
        TokenView::RightBrace => TokenKind::RightBrace,
        TokenView::LeftBracket => TokenKind::LeftBracket,
        TokenView::RightBracket => TokenKind::RightBracket,
        TokenView::Comma => TokenKind::Comma,
        TokenView::Dot => TokenKind::Dot,
        TokenView::Minus => TokenKind::Minus,
        TokenView::Plus => TokenKind::Plus,
        TokenView::Semicolon => TokenKind::Semicolon,
        TokenView::Slash => TokenKind::Slash,
        TokenView::Star => TokenKind::Star,
        TokenView::Bang => TokenKind::Bang,
        TokenView::BangEqual => TokenKind::BangEqual,
        TokenView::Equal => TokenKind::Equal,
        TokenView::EqualEqual => TokenKind::EqualEqual,
        TokenView::Greater => TokenKind::Greater,
        TokenView::GreaterEqual => TokenKind::GreaterEqual,
        TokenView::Less => TokenKind::Less,
        TokenView::LessEqual => TokenKind::LessEqual,
        TokenView::And => TokenKind::And,
        TokenView::Class => TokenKind::Class,
        TokenView::Else => TokenKind::Else,
        TokenView::False => TokenKind::False,
        TokenView::Fun => TokenKind::Fun,
        TokenView::For => TokenKind::For,
        TokenView::If => TokenKind::If,
        TokenView::Nil => TokenKind::Nil,
        TokenView::Or => TokenKind::Or,
        TokenView::Print => TokenKind::Print,
        TokenView::Return => TokenKind::Return,
        TokenView::Super => TokenKind::Super,
        TokenView::This => TokenKind::This,
        TokenView::True => TokenKind::True,
        TokenView::Var => TokenKind::Var,
        TokenView::While => TokenKind::While,
        TokenView::Import => TokenKind::Import,
        TokenView::Identifier(_) => TokenKind::Identifier,
        TokenView::String(_) => TokenKind::String,
        TokenView::Number(_) => TokenKind::Number,
        TokenView::Error(_) => TokenKind::Error,
        TokenView::Eof => TokenKind::Eof,
    }
}

impl Token {
    /// The payload-free kind of this token.
    pub fn kind(&self) -> (r: TokenKind)
        ensures
            r == kind_of(self@),
    {
        match self {
            Token::LeftParen => TokenKind::LeftParen,
            Token::RightParen => TokenKind::RightParen,
            Token::LeftBrace => TokenKind::LeftBrace,
            Token::RightBrace => TokenKind::RightBrace,
            Token::LeftBracket => TokenKind::LeftBracket,
            Token::RightBracket => TokenKind::RightBracket,
            Token::Comma => TokenKind::Comma,
            Token::Dot => TokenKind::Dot,
            Token::Minus => TokenKind::Minus,
            Token::Plus => TokenKind::Plus,
            Token::Semicolon => TokenKind::Semicolon,
            Token::Slash => TokenKind::Slash,
            Token::Star => TokenKind::Star,
            Token::Bang => TokenKind::Bang,
            Token::BangEqual => TokenKind::BangEqual,
            Token::Equal => TokenKind::Equal,
            Token::EqualEqual => TokenKind::EqualEqual,
            Token::Greater => TokenKind::Greater,
            Token::GreaterEqual => TokenKind::GreaterEqual,
            Token::Less => TokenKind::Less,
            Token::LessEqual => TokenKind::LessEqual,
            Token::And => TokenKind::And,
            Token::Class => TokenKind::Class,
            Token::Else => TokenKind::Else,
            Token::False => TokenKind::False,
            Token::Fun => TokenKind::Fun,
            Token::For => TokenKind::For,
            Token::If => TokenKind::If,
            Token::Nil => TokenKind::Nil,
            Token::Or => TokenKind::Or,
            Token::Print => TokenKind::Print,
            Token::Return => TokenKind::Return,
            Token::Super => TokenKind::Super,
            Token::This => TokenKind::This,
            Token::True => TokenKind::True,
            Token::Var => TokenKind::Var,
            Token::While => TokenKind::While,
            Token::Import => TokenKind::Import,
            Token::Identifier(_) => TokenKind::Identifier,
            Token::String(_) => TokenKind::String,
            Token::Number(_) => TokenKind::Number,
            Token::Error(_) => TokenKind::Error,
            Token::Eof => TokenKind::Eof,
        }
    }

    /// Whether this token carries a lexical error.
    pub fn is_err(&self) -> (r: bool)
        ensures
            r == (self@ is Error),
    {
        matches!(self, Token::Error(_))
    }

    /// Whether this token is anything but a lexical error.
    pub fn is_ok(&self) -> (r: bool)
        ensures
            r == !(self@ is Error),
    {
        !matches!(self, Token::Error(_))
    }

    /// Whether this token is the end-of-input marker.
    pub fn is_eof(&self) -> (r: bool)
        ensures
            r == (self@ is Eof),
    {
        matches!(self, Token::Eof)
    }

    /// The keyword token that the given text spells, if any.
    pub fn from_keyword(s: &[u8]) -> (r: Option<Token>)
        ensures
            r matches Some(t) ==> keyword_of(s@) == Some(t@),
            r is None ==> keyword_of(s@) is None,
    {
        if bytes_eq_str(s, "and") {
            Some(Token::And)
        } else if bytes_eq_str(s, "class") {
            Some(Token::Class)
        } else if bytes_eq_str(s, "else") {
            Some(Token::Else)
        } else if bytes_eq_str(s, "false") {
            Some(Token::False)
        } else if bytes_eq_str(s, "for") {
            Some(Token::For)
        } else if bytes_eq_str(s, "fun") {
            Some(Token::Fun)
        } else if bytes_eq_str(s, "if") {
            Some(Token::If)
        } else if bytes_eq_str(s, "nil") {
            Some(Token::Nil)
        } else if bytes_eq_str(s, "or") {
            Some(Token::Or)
        } else if bytes_eq_str(s, "print") {
            Some(Token::Print)
        } else if bytes_eq_str(s, "return") {
            Some(Token::Return)
        } else if bytes_eq_str(s, "super") {
            Some(Token::Super)
        } else if bytes_eq_str(s, "this") {
            Some(Token::This)
        } else if bytes_eq_str(s, "true") {
            Some(Token::True)
        } else if bytes_eq_str(s, "var") {
            Some(Token::Var)
        } else if bytes_eq_str(s, "while") {
            Some(Token::While)
        } else if bytes_eq_str(s, "import") {
            Some(Token::Import)
        } else {
            None
        }
    }
}

/// The keyword token that the given text spells, if any.
pub open spec fn keyword_of(s: Seq<u8>) -> Option<TokenView> {
    if s == ("and").spec_bytes() {
        Some(TokenView::And)
    } else if s == ("class").spec_bytes() {
        Some(TokenView::Class)
    } else if s == ("else").spec_bytes() {
        Some(TokenView::Else)
    } else if s == ("false").spec_bytes() {
        Some(TokenView::False)
    } else if s == ("for").spec_bytes() {
        Some(TokenView::For)
    } else if s == ("fun").spec_bytes() {
        Some(TokenView::Fun)
    } else if s == ("if").spec_bytes() {
        Some(TokenView::If)
    } else if s == ("nil").spec_bytes() {
        Some(TokenView::Nil)
    } else if s == ("or").spec_bytes() {
        Some(TokenView::Or)
    } else if s == ("print").spec_bytes() {
        Some(TokenView::Print)
    } else if s == ("return").spec_bytes() {
        Some(TokenView::Return)
    } else if s == ("super").spec_bytes() {
        Some(TokenView::Super)
    } else if s == ("this").spec_bytes() {
        Some(TokenView::This)
    } else if s == ("true").spec_bytes() {
        Some(TokenView::True)
    } else if s == ("var").spec_bytes() {
        Some(TokenView::Var)
    } else if s == ("while").spec_bytes() {
        Some(TokenView::While)
    } else if s == ("import").spec_bytes() {
        Some(TokenView::Import)
    } else {
        None
    }
}

/// The display form of a token, `<TAG> <lexeme> <literal>`: its tag name,
/// its lexeme, and its literal value or `null`. A number's literal is its
/// canonical decimal rendering; an error token displays its error report.
pub open spec fn token_display(t: TokenView) -> Seq<u8> {
    match t {
        TokenView::LeftParen => ("LEFT_PAREN ( null").spec_bytes(),
        TokenView::RightParen => ("RIGHT_PAREN ) null").spec_bytes(),
        TokenView::LeftBrace => ("LEFT_BRACE { null").spec_bytes(),
        TokenView::RightBrace => ("RIGHT_BRACE } null").spec_bytes(),
        TokenView::LeftBracket => ("LEFT_BRACKET [ null").spec_bytes(),
        TokenView::RightBracket => ("RIGHT_BRACKET ] null").spec_bytes(),
        TokenView::Comma => ("COMMA , null").spec_bytes(),
        TokenView::Dot => ("DOT . null").spec_bytes(),
        TokenView::Minus => ("MINUS - null").spec_bytes(),
        TokenView::Plus => ("PLUS + null").spec_bytes(),
        TokenView::Semicolon => ("SEMICOLON ; null").spec_bytes(),
        TokenView::Slash => ("SLASH / null").spec_bytes(),
        TokenView::Star => ("STAR * null").spec_bytes(),
        TokenView::Bang => ("BANG ! null").spec_bytes(),
        TokenView::BangEqual => ("BANG_EQUAL != null").spec_bytes(),
        TokenView::Equal => ("EQUAL = null").spec_bytes(),
        TokenView::EqualEqual => ("EQUAL_EQUAL == null").spec_bytes(),
        TokenView::Greater => ("GREATER > null").spec_bytes(),
        TokenView::GreaterEqual => ("GREATER_EQUAL >= null").spec_bytes(),
        TokenView::Less => ("LESS < null").spec_bytes(),
        TokenView::LessEqual => ("LESS_EQUAL <= null").spec_bytes(),
        TokenView::And => ("AND and null").spec_bytes(),
        TokenView::Class => ("CLASS class null").spec_bytes(),
        TokenView::Else => ("ELSE else null").spec_bytes(),
        TokenView::False => ("FALSE false null").spec_bytes(),
        TokenView::Fun => ("FUN fun null").spec_bytes(),
        TokenView::For => ("FOR for null").spec_bytes(),
        TokenView::If => ("IF if null").spec_bytes(),
        TokenView::Nil => ("NIL nil null").spec_bytes(),
        TokenView::Or => ("OR or null").spec_bytes(),
        TokenView::Print => ("PRINT print null").spec_bytes(),
        TokenView::Return => ("RETURN return null").spec_bytes(),
        TokenView::Super => ("SUPER super null").spec_bytes(),
        TokenView::This => ("THIS this null").spec_bytes(),
        TokenView::True => ("TRUE true null").spec_bytes(),
        TokenView::Var => ("VAR var null").spec_bytes(),
        TokenView::While => ("WHILE while null").spec_bytes(),
        TokenView::Import => ("IMPORT import null").spec_bytes(),
        TokenView::Identifier(s) => ("IDENTIFIER ").spec_bytes() + s + (" null").spec_bytes(),
        TokenView::String(s) => ("STRING \"").spec_bytes() + s + ("\" ").spec_bytes() + s,
        TokenView::Number(lex) => ("NUMBER ").spec_bytes() + lex + (" ").spec_bytes()
            + number_repr(lex),
        TokenView::Error(e) => lox_error_display(e),
        TokenView::Eof => ("EOF  null").spec_bytes(),
    }
}

impl Token {
    /// The display form `<TAG> <lexeme> <literal>`, as UTF-8 bytes.
    pub fn display_bytes(&self) -> (r: Vec<u8>)
        ensures
            r@ == token_display(self@),
    {
        let mut out: Vec<u8> = Vec::new();
        match self {
            Token::Identifier(s) => {
                push_str_bytes(&mut out, "IDENTIFIER ");
                push_bytes(&mut out, s.as_slice());
                push_str_bytes(&mut out, " null");
            },
            Token::String(s) => {
                push_str_bytes(&mut out, "STRING \"");
                push_bytes(&mut out, s.as_slice());
                push_str_bytes(&mut out, "\" ");
                push_bytes(&mut out, s.as_slice());
            },
            Token::Number(lex) => {
                push_str_bytes(&mut out, "NUMBER ");
                push_bytes(&mut out, lex.as_slice());
                push_str_bytes(&mut out, " ");
                let repr = number_repr_bytes(lex.as_slice());
                push_bytes(&mut out, repr.as_slice());
            },
            Token::Error(e) => {
                return e.display_bytes();
            },
            _ => {
                let text: &str = match self {
                    Token::LeftParen => "LEFT_PAREN ( null",
                    Token::RightParen => "RIGHT_PAREN ) null",
                    Token::LeftBrace => "LEFT_BRACE { null",
                    Token::RightBrace => "RIGHT_BRACE } null",
                    Token::LeftBracket => "LEFT_BRACKET [ null",
                    Token::RightBracket => "RIGHT_BRACKET ] null",
                    Token::Comma => "COMMA , null",
                    Token::Dot => "DOT . null",
                    Token::Minus => "MINUS - null",
                    Token::Plus => "PLUS + null",
                    Token::Semicolon => "SEMICOLON ; null",
                    Token::Slash => "SLASH / null",
                    Token::Star => "STAR * null",
                    Token::Bang => "BANG ! null",
                    Token::BangEqual => "BANG_EQUAL != null",
                    Token::Equal => "EQUAL = null",
                    Token::EqualEqual => "EQUAL_EQUAL == null",
                    Token::Greater => "GREATER > null",
                    Token::GreaterEqual => "GREATER_EQUAL >= null",
                    Token::Less => "LESS < null",
                    Token::LessEqual => "LESS_EQUAL <= null",
                    Token::And => "AND and null",
                    Token::Class => "CLASS class null",
                    Token::Else => "ELSE else null",
                    Token::False => "FALSE false null",
                    Token::Fun => "FUN fun null",
                    Token::For => "FOR for null",
                    Token::If => "IF if null",
                    Token::Nil => "NIL nil null",
                    Token::Or => "OR or null",
                    Token::Print => "PRINT print null",
                    Token::Return => "RETURN return null",
                    Token::Super => "SUPER super null",
                    Token::This => "THIS this null",
                    Token::True => "TRUE true null",
                    Token::Var => "VAR var null",
                    Token::While => "WHILE while null",
                    Token::Import => "IMPORT import null",
                    _ => "EOF  null",
                };
                push_str_bytes(&mut out, text);
            },
        }
        proof {
            assert(out@ =~= token_display(self@));
        }
        out
    }

    /// The display form `<TAG> <lexeme> <literal>`, as text.
    pub fn display_string(&self) -> (r: String)
        ensures
            r@ == crate::render::utf8_lossy(token_display(self@)),
    {
        let bytes = self.display_bytes();
        crate::render::bytes_to_string_lossy(&bytes)
    }
}

/// The short display text of a token kind, for talking about expected
/// tokens: operators and keywords quoted, literal classes and the
/// end-of-input marker by name.
pub open spec fn kind_display(k: TokenKind) -> Seq<u8> {
    match k {
        TokenKind::LeftParen => ("')'").spec_bytes(),
        TokenKind::RightParen => ("')'").spec_bytes(),
        TokenKind::LeftBrace => ("'{'").spec_bytes(),
        TokenKind::RightBrace => ("'}'").spec_bytes(),
        TokenKind::LeftBracket => ("'['").spec_bytes(),
        TokenKind::RightBracket => ("']'").spec_bytes(),
        TokenKind::Comma => ("','").spec_bytes(),
        TokenKind::Dot => ("'.'").spec_bytes(),
        TokenKind::Minus => ("'-'").spec_bytes(),
        TokenKind::Plus => ("'+'").spec_bytes(),
        TokenKind::Semicolon => ("';'").spec_bytes(),
        TokenKind::Slash => ("'/'").spec_bytes(),
        TokenKind::Star => ("'*'").spec_bytes(),
        TokenKind::Bang => ("'!'").spec_bytes(),
        TokenKind::BangEqual => ("'!='").spec_bytes(),
        TokenKind::Equal => ("'='").spec_bytes(),
        TokenKind::EqualEqual => ("'=='").spec_bytes(),
        TokenKind::Greater => ("'>'").spec_bytes(),
        TokenKind::GreaterEqual => ("'>='").spec_bytes(),
        TokenKind::Less => ("'<'").spec_bytes(),
        TokenKind::LessEqual => ("'<='").spec_bytes(),
        TokenKind::Identifier => ("identifier").spec_bytes(),
        TokenKind::String => ("string").spec_bytes(),
        TokenKind::Number => ("number").spec_bytes(),
        TokenKind::And => ("'and'").spec_bytes(),
        TokenKind::Class => ("'class'").spec_bytes(),
        TokenKind::Else => ("'else'").spec_bytes(),
        TokenKind::False => ("'false'").spec_bytes(),
        TokenKind::Fun => ("'fun'").spec_bytes(),
        TokenKind::For => ("'for'").spec_bytes(),
        TokenKind::If => ("'if'").spec_bytes(),
        TokenKind::Nil => ("nil").spec_bytes(),
        TokenKind::Or => ("'or'").spec_bytes(),
        TokenKind::Print => ("'print'").spec_bytes(),
        TokenKind::Return => ("'return'").spec_bytes(),
        TokenKind::Super => ("'super'").spec_bytes(),
        TokenKind::This => ("'this'").spec_bytes(),
        TokenKind::True => ("'true'").spec_bytes(),
        TokenKind::Var => ("'var'").spec_bytes(),
        TokenKind::While => ("'while'").spec_bytes(),
        TokenKind::Import => ("'import'").spec_bytes(),
        TokenKind::Eof => ("<EOF>").spec_bytes(),
        TokenKind::Error => ("<Unknown>").spec_bytes(),
    }
}

impl TokenKind {
    /// The short display text of this kind.
    pub fn display_str(&self) -> (r: &'static str)
        ensures
            r.spec_bytes() == kind_display(*self),
    {
        match self {
            TokenKind::LeftParen => "')'",
            TokenKind::RightParen => "')'",
            TokenKind::LeftBrace => "'{'",
            TokenKind::RightBrace => "'}'",
            TokenKind::LeftBracket => "'['",
            TokenKind::RightBracket => "']'",
            TokenKind::Comma => "','",
            TokenKind::Dot => "'.'",
            TokenKind::Minus => "'-'",
            TokenKind::Plus => "'+'",
            TokenKind::Semicolon => "';'",
            TokenKind::Slash => "'/'",
            TokenKind::Star => "'*'",
            TokenKind::Bang => "'!'",
            TokenKind::BangEqual => "'!='",
            TokenKind::Equal => "'='",
            TokenKind::EqualEqual => "'=='",
            TokenKind::Greater => "'>'",
            TokenKind::GreaterEqual => "'>='",
            TokenKind::Less => "'<'",
            TokenKind::LessEqual => "'<='",
            TokenKind::Identifier => "identifier",
            TokenKind::String => "string",
            TokenKind::Number => "number",
            TokenKind::And => "'and'",
            TokenKind::Class => "'class'",
            TokenKind::Else => "'else'",
            TokenKind::False => "'false'",
            TokenKind::Fun => "'fun'",
            TokenKind::For => "'for'",
            TokenKind::If => "'if'",
            TokenKind::Nil => "nil",
            TokenKind::Or => "'or'",
            TokenKind::Print => "'print'",
            TokenKind::Return => "'return'",
            TokenKind::Super => "'super'",
            TokenKind::This => "'this'",
            TokenKind::True => "'true'",
            TokenKind::Var => "'var'",
            TokenKind::While => "'while'",
            TokenKind::Import => "'import'",
            TokenKind::Eof => "<EOF>",
            TokenKind::Error => "<Unknown>",
        }
    }
}

/// The index of the first `.` in `s` at or after `i`, or `s.len()` if none.
pub open spec fn first_dot_from(s: Seq<u8>, i: int) -> int
    decreases s.len() - i,
{
    if 0 <= i < s.len() {
        if s[i] == 46 {
            i
        } else {
            first_dot_from(s, i + 1)
        }
    } else {
        i
    }
}

/// The lexeme with leading `0` digits removed, keeping at least one digit.
pub open spec fn strip_leading_zeros(s: Seq<u8>) -> Seq<u8>
    decreases s.len(),
{
    if s.len() > 1 && s[0] == 48 {
        strip_leading_zeros(s.skip(1))
    } else {
        s
    }
}

/// The lexeme with trailing `0` digits removed, possibly down to nothing.
pub open spec fn strip_trailing_zeros(s: Seq<u8>) -> Seq<u8>
    decreases s.len(),
{
    if s.len() > 0 && s.last() == 48 {
        strip_trailing_zeros(s.drop_last())
    } else {
        s
    }
}

/// The canonical decimal rendering of a numeric lexeme (digits, optionally
/// a dot and more digits): leading zeros of the whole part and trailing
/// zeros of the fractional part are dropped, and the result always shows at
/// least one fractional digit, so `2` renders as `2.0` and `3.70` as `3.7`.
pub open spec fn number_repr(lexeme: Seq<u8>) -> Seq<u8> {
    let d = first_dot_from(lexeme, 0);
    let whole = strip_leading_zeros(lexeme.take(d));
    let frac = if d < lexeme.len() {
        strip_trailing_zeros(lexeme.skip(d + 1))
    } else {
        Seq::empty()
    };
    if frac.len() == 0 {
        whole + (".0").spec_bytes()
    } else {
        whole + (".").spec_bytes() + frac
    }
}

proof fn lemma_first_dot_from(s: Seq<u8>, i: int, d: int)
    requires
        0 <= i <= d <= s.len(),
        forall|j: int| i <= j < d ==> s[j] != 46,
        d == s.len() || s[d] == 46,
    ensures
        first_dot_from(s, i) == d,
    decreases d - i,
{
    if i < d {
        lemma_first_dot_from(s, i + 1, d);
    }
}

proof fn lemma_strip_leading(t: Seq<u8>, z: int)
    requires
        0 <= z <= t.len(),
        t.len() == 0 ==> z == 0,
        t.len() > 0 ==> z < t.len(),
        forall|j: int| 0 <= j < z ==> t[j] == 48,
        z < t.len() ==> (z == t.len() - 1 || t[z] != 48),
    ensures
        strip_leading_zeros(t) == t.skip(z),
    decreases z,
{
    if z == 0 {
        assert(t.skip(0) =~= t);
        if t.len() > 1 && t[0] == 48 {
            // then z == 0 means t[0] != 48 or t.len() - 1 == 0; the former
            // contradicts, the latter contradicts t.len() > 1.
            assert(false);
        }
    } else {
        lemma_strip_leading(t.skip(1), z - 1);
        assert(t.skip(1).skip(z - 1) =~= t.skip(z));
    }
}

proof fn lemma_strip_trailing(t: Seq<u8>, w: int)
    requires
        0 <= w <= t.len(),
        forall|j: int| w <= j < t.len() ==> t[j] == 48,
        w > 0 ==> t[w - 1] != 48,
    ensures
        strip_trailing_zeros(t) == t.take(w),
    decreases t.len(),
{
    if t.len() > 0 && t.last() == 48 {
        assert(w < t.len());
        lemma_strip_trailing(t.drop_last(), w);
        assert(t.drop_last().take(w) =~= t.take(w));
    } else {
        assert(w == t.len());
        assert(t.take(w) =~= t);
    }
}

/// Renders a numeric lexeme in its canonical decimal form.
pub fn number_repr_bytes(lexeme: &[u8]) -> (r: Vec<u8>)
    ensures
        r@ == number_repr(lexeme@),
{
    let n = lexeme.len();
    let mut d: usize = 0;
    while d < n && lexeme[d] != 46
        invariant
            0 <= d <= n == lexeme@.len(),
            forall|j: int| 0 <= j < d ==> lexeme@[j] != 46,
        decreases n - d,
    {
        d += 1;
    }
    proof {
        lemma_first_dot_from(lexeme@, 0, d as int);
    }
    let mut z: usize = 0;
    while z + 1 < d && lexeme[z] == 48
        invariant
            0 <= z <= n == lexeme@.len(),
            d <= n,
            d > 0 ==> z < d,
            d == 0 ==> z == 0,
            forall|j: int| 0 <= j < z ==> lexeme@[j] == 48,
        decreases d - z,
    {
        z += 1;
    }
    proof {
        lemma_strip_leading(lexeme@.take(d as int), z as int);
    }
    let mut out: Vec<u8> = Vec::new();
    push_bytes(&mut out, &lexeme[z..d]);
    proof {
        assert(lexeme@.subrange(z as int, d as int) =~= lexeme@.take(d as int).skip(z as int));
    }
    if d >= n {
        push_str_bytes(&mut out, ".0");
        proof {
            assert(out@ =~= number_repr(lexeme@));
        }
        return out;
    }
    let m = n - d - 1;
    let mut w: usize = m;
    while w > 0 && lexeme[d + w] == 48
        invariant
            0 <= w <= m,
            d < n == lexeme@.len(),
            m == n - d - 1,
            forall|j: int| w <= j < m ==> #[trigger] lexeme@[d + 1 + j] == 48,
        decreases w,
    {
        w -= 1;
    }
    proof {
        let t = lexeme@.skip(d + 1);
        assert forall|j: int| w <= j < t.len() implies t[j] == 48 by {
            assert(lexeme@[d + 1 + j] == 48);
        }
        lemma_strip_trailing(t, w as int);
    }
    if w == 0 {
        push_str_bytes(&mut out, ".0");
    } else {
        push_str_bytes(&mut out, ".");
        push_bytes(&mut out, &lexeme[d + 1..d + 1 + w]);
        proof {
            assert(lexeme@.subrange(d + 1, d + 1 + w) =~= lexeme@.skip(d + 1).take(w as int));
        }
    }
    proof {
        assert(out@ =~= number_repr(lexeme@));
    }
    out
}

} // verus!
