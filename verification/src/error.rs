//! Lexical errors. They are carried inside the token stream as ordinary
//! token values, so one pass over a source collects every error in it.

use vstd::prelude::*;
use vstd::string::StringSliceAdditionalSpecFns;

use crate::render::char_utf8;
use crate::render::dec_digits;
use crate::render::push_char_utf8;
use crate::render::push_str_bytes;
use crate::render::push_usize_dec;

verus! {

/// A lexical error, with the line it was found on.
#[derive(Copy, Clone, Debug, PartialEq, Eq, Structural)]
pub enum LoxError {
    /// A byte that starts no token, as a character, with its line.
    InvalidChar(usize, char),
    /// A string literal still open when the input ended, with its line.
    UnterminatedStr(usize),
}

impl From<(usize, char)> for LoxError {
    /// An invalid-character error from a line and the character.
    fn from(pair: (usize, char)) -> (r: LoxError)
        ensures
            r == LoxError::InvalidChar(pair.0, pair.1),
    {
        LoxError::InvalidChar(pair.0, pair.1)
    }
}

impl vstd::std_specs::convert::FromSpecImpl<(usize, char)> for LoxError {
    open spec fn obeys_from_spec() -> bool {
        true
    }

    open spec fn from_spec(pair: (usize, char)) -> LoxError {
        LoxError::InvalidChar(pair.0, pair.1)
    }
}

/// The error's one-line report.
pub open spec fn lox_error_display(e: LoxError) -> Seq<u8> {
    match e {
        LoxError::InvalidChar(line, c) => ("[line ").spec_bytes() + dec_digits(line as int) + (
        "] Error: Unexpected character: ").spec_bytes() + char_utf8(c),
        LoxError::UnterminatedStr(line) => ("[line ").spec_bytes() + dec_digits(line as int) + (
        "] Error: Unterminated string.").spec_bytes(),
    }
}

impl LoxError {
    /// The one-line report, as UTF-8 bytes.
    pub fn display_bytes(&self) -> (r: Vec<u8>)
        ensures
            r@ == lox_error_display(*self),
    {
        let mut out: Vec<u8> = Vec::new();
        match self {
            LoxError::InvalidChar(line, c) => {
                push_str_bytes(&mut out, "[line ");
                push_usize_dec(&mut out, *line);
                push_str_bytes(&mut out, "] Error: Unexpected character: ");
                push_char_utf8(&mut out, *c);
            },
            LoxError::UnterminatedStr(line) => {
                push_str_bytes(&mut out, "[line ");
                push_usize_dec(&mut out, *line);
                push_str_bytes(&mut out, "] Error: Unterminated string.");
            },
        }
        proof {
            assert(out@ =~= lox_error_display(*self));
        }
        out
    }
}

} // verus!
