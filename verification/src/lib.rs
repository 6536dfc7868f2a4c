//! Front end of a small expression language: a byte-level lexer and a
//! precedence-climbing expression parser, producing span-annotated tokens
//! and syntax trees with a canonical textual rendering.

pub mod ast;
pub mod error;
pub mod parser;
pub mod position;
pub mod render;
pub mod token;
pub mod tokenizer;

pub use ast::Ast;
pub use ast::BinaryOperator;
pub use ast::Expr;
pub use ast::Stmt;
pub use ast::UnaryOperator;
pub use error::LoxError;
pub use parser::ParseError;
pub use parser::Parser;
pub use position::Span;
pub use position::WithSpan;
pub use token::Token;
pub use token::TokenKind;
pub use tokenizer::tokenize;
pub use tokenizer::Lexer;
