//! The token stream: the smallest lexical units produced by the scanner.
//!
//! Tokens borrow string slices from the original input; they own no heap
//! memory, and their lifetime is bound to the input buffer, not to the
//! arena that holds the downstream tree.

use vstd::prelude::*;
use crate::ops::{Op, ParenOp};

verus! {

/// One lexical unit of the input.
#[derive(Debug, Clone, Copy, PartialEq)]
pub enum Token<'source> {
    /// A run of digits, possibly interleaved with separators, together with
    /// the trailing punctuation operator split off from it, if any.
    Number(&'source str, Option<Op>),
    /// An alphabetic character (or a recognized command standing for one).
    Letter(char),
    /// A character rendered as an upright (non-italic) letter.
    NormalLetter(char),
    /// An operator with a resolved plain-operator value.
    Operator(Op),
    /// A parenthesis-class token carrying a resolved fence operator.
    Paren(ParenOp),
    /// An opening brace starting a group.
    GroupBegin,
    /// A closing brace ending a group.
    GroupEnd,
    /// A subscript marker.
    Underscore,
    /// A superscript marker.
    Circumflex,
    /// A table-cell separator.
    Ampersand,
    /// A colon.
    Colon,
    /// A non-breaking space.
    NonBreakingSpace,
    /// A prime mark.
    Prime,
    /// A less-than sign.
    OpLessThan,
    /// A greater-than sign.
    OpGreaterThan,
    /// A space marker carrying the requested space width.
    Space(&'source str),
    /// A command name that the command table does not recognize.
    UnknownCommand(&'source str),
    /// End of input.
    EOF,
}

/// The display name of a token, used when rendering error messages.
pub open spec fn token_name<'source>(t: Token<'source>) -> Seq<char> {
    match t {
        Token::Number(_, _) => "Number"@,
        Token::Letter(_) => "Letter"@,
        Token::NormalLetter(_) => "NormalLetter"@,
        Token::Operator(_) => "Operator"@,
        Token::Paren(_) => "Paren"@,
        Token::GroupBegin => "GroupBegin"@,
        Token::GroupEnd => "GroupEnd"@,
        Token::Underscore => "Underscore"@,
        Token::Circumflex => "Circumflex"@,
        Token::Ampersand => "Ampersand"@,
        Token::Colon => "Colon"@,
        Token::NonBreakingSpace => "NonBreakingSpace"@,
        Token::Prime => "Prime"@,
        Token::OpLessThan => "OpLessThan"@,
        Token::OpGreaterThan => "OpGreaterThan"@,
        Token::Space(_) => "Space"@,
        Token::UnknownCommand(_) => "UnknownCommand"@,
        Token::EOF => "EOF"@,
    }
}

impl<'source> Token<'source> {
    /// The display name of this token, used when rendering error messages.
    pub fn as_str(&self) -> (s: &'static str)
        ensures
            s@ == token_name(*self),
    {
        match self {
            Token::Number(_, _) => "Number",
            Token::Letter(_) => "Letter",
            Token::NormalLetter(_) => "NormalLetter",
            Token::Operator(_) => "Operator",
            Token::Paren(_) => "Paren",
            Token::GroupBegin => "GroupBegin",
            Token::GroupEnd => "GroupEnd",
            Token::Underscore => "Underscore",
            Token::Circumflex => "Circumflex",
            Token::Ampersand => "Ampersand",
            Token::Colon => "Colon",
            Token::NonBreakingSpace => "NonBreakingSpace",
            Token::Prime => "Prime",
            Token::OpLessThan => "OpLessThan",
            Token::OpGreaterThan => "OpGreaterThan",
            Token::Space(_) => "Space",
            Token::UnknownCommand(_) => "UnknownCommand",
            Token::EOF => "EOF",
        }
    }
}

} // verus!
