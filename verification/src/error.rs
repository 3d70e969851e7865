//! The structured error model: every failure the grammar layer can detect
//! is a closed, non-throwing value carrying the source offset at which the
//! problem was found. Building a human-readable message is a separate, pure
//! step, invoked only when a message is actually wanted; the structured
//! value stays inspectable without ever building a string.

use vstd::prelude::*;
use vstd::string::{StrSliceExecFns, StringExecFns};
use crate::strbuf::string_push;
use crate::token::{Token, token_name};

verus! {

/// A structural failure: the offset into the source, counted in
/// characters, at which it was detected, and its kind.
#[derive(Debug)]
pub struct LatexError<'source>(pub usize, pub LatexErrKind<'source>);

/// The closed set of structural failures.
#[derive(Debug)]
pub enum LatexErrKind<'source> {
    /// A specific token was expected, another was found.
    UnexpectedToken { expected: Token<'static>, got: Token<'source> },
    /// A specific closing token was expected, the input ended first.
    UnclosedGroup(Token<'source>),
    /// A closing token appeared where none was open.
    UnexpectedClose(Token<'source>),
    /// The input ended where more was required.
    UnexpectedEOF,
    /// A parenthesis had to follow the given construct, something else came.
    MissingParenthesis { location: Token<'static>, got: Token<'source> },
    /// An environment name that the environment table does not know.
    UnknownEnvironment(&'source str),
    /// A command name that the command table does not know.
    UnknownCommand(&'source str),
    /// An environment was closed under a different name than it was opened.
    MismatchedEnvironment { expected: &'source str, got: &'source str },
    /// A token appeared in a syntactically invalid position.
    CannotBeUsedHere { got: Token<'source>, correct_place: Place },
    /// Text content was required in the named context, something else came.
    ExpectedText(&'static str),
}

/// The symbolic descriptor of where a misplaced token would have been
/// valid.
#[derive(Debug, Clone, Copy, PartialEq, Eq)]
pub enum Place {
    /// Only valid after a big operator.
    AfterBigOp,
    /// Only valid before certain operators.
    BeforeSomeOps,
    /// Only valid after an identifier or an operator.
    AfterOpOrIdent,
}

/// The display text of a placement descriptor.
pub open spec fn place_name(p: Place) -> Seq<char> {
    match p {
        Place::AfterBigOp => "after \\int, \\sum, ..."@,
        Place::BeforeSomeOps => "before supported operators"@,
        Place::AfterOpOrIdent => "after an identifier or operator"@,
    }
}

impl Place {
    /// The display text of this placement descriptor.
    pub fn as_str(&self) -> (s: &'static str)
        ensures
            s@ == place_name(*self),
    {
        match self {
            Place::AfterBigOp => "after \\int, \\sum, ...",
            Place::BeforeSomeOps => "before supported operators",
            Place::AfterOpOrIdent => "after an identifier or operator",
        }
    }
}

/// The full message text of an error kind.
pub open spec fn message(k: LatexErrKind) -> Seq<char> {
    match k {
        LatexErrKind::UnexpectedToken { expected, got } => "Expected token \""@ + token_name(
            expected,
        ) + "\", but found token \""@ + token_name(got) + "\"."@,
        LatexErrKind::UnclosedGroup(expected) => "Expected token \""@ + token_name(expected)
            + "\", but not found."@,
        LatexErrKind::UnexpectedClose(got) => "Unexpected closing token: \""@ + token_name(got)
            + "\"."@,
        LatexErrKind::UnexpectedEOF => "Unexpected end of file."@,
        LatexErrKind::MissingParenthesis { location, got } => "There must be a parenthesis after \""@
            + token_name(location) + "\", but not found. Instead, \""@ + token_name(got)
            + "\" was found."@,
        LatexErrKind::UnknownEnvironment(environment) => "Unknown environment \""@ + environment@
            + "\"."@,
        LatexErrKind::UnknownCommand(cmd) => "Unknown command \"\\"@ + cmd@ + "\"."@,
        LatexErrKind::MismatchedEnvironment { expected, got } => "Expected \"\\end{"@ + expected@
            + "}\", but got \"\\end{"@ + got@ + "}\"."@,
        LatexErrKind::CannotBeUsedHere { got, correct_place } => "Got \""@ + token_name(got)
            + "\", which may only appear "@ + place_name(correct_place) + "."@,
        LatexErrKind::ExpectedText(place) => "Expected text in "@ + place@ + "."@,
    }
}

impl<'source> LatexErrKind<'source> {
    /// Returns the error message as a string.
    ///
    /// Message construction is deliberately separate from error
    /// construction, so the non-erroring path never allocates for it.
    pub fn string(&self) -> (r: String)
        ensures
            r@ == message(*self),
    {
        let r = match self {
            LatexErrKind::UnexpectedToken { expected, got } => {
                let mut s = String::from_str("Expected token \"");
                s.append(expected.as_str());
                s.append("\", but found token \"");
                s.append(got.as_str());
                s.append("\".");
                s
            },
            LatexErrKind::UnclosedGroup(expected) => {
                let mut s = String::from_str("Expected token \"");
                s.append(expected.as_str());
                s.append("\", but not found.");
                s
            },
            LatexErrKind::UnexpectedClose(got) => {
                let mut s = String::from_str("Unexpected closing token: \"");
                s.append(got.as_str());
                s.append("\".");
                s
            },
            LatexErrKind::UnexpectedEOF => String::from_str("Unexpected end of file."),
            LatexErrKind::MissingParenthesis { location, got } => {
                let mut s = String::from_str("There must be a parenthesis after \"");
                s.append(location.as_str());
                s.append("\", but not found. Instead, \"");
                s.append(got.as_str());
                s.append("\" was found.");
                s
            },
            LatexErrKind::UnknownEnvironment(environment) => {
                let mut s = String::from_str("Unknown environment \"");
                s.append(environment);
                s.append("\".");
                s
            },
            LatexErrKind::UnknownCommand(cmd) => {
                let mut s = String::from_str("Unknown command \"\\");
                s.append(cmd);
                s.append("\".");
                s
            },
            LatexErrKind::MismatchedEnvironment { expected, got } => {
                let mut s = String::from_str("Expected \"\\end{");
                s.append(expected);
                s.append("}\", but got \"\\end{");
                s.append(got);
                s.append("}\".");
                s
            },
            LatexErrKind::CannotBeUsedHere { got, correct_place } => {
                let mut s = String::from_str("Got \"");
                s.append(got.as_str());
                s.append("\", which may only appear ");
                s.append(correct_place.as_str());
                s.append(".");
                s
            },
            LatexErrKind::ExpectedText(place) => {
                let mut s = String::from_str("Expected text in ");
                s.append(place);
                s.append(".");
                s
            },
        };
        proof {
            assert(r@ =~= message(*self));
        }
        r
    }
}

/// The decimal digit character for a value below ten.
pub open spec fn dec_digit_char(d: nat) -> char {
    if d == 0 {
        '0'
    } else if d == 1 {
        '1'
    } else if d == 2 {
        '2'
    } else if d == 3 {
        '3'
    } else if d == 4 {
        '4'
    } else if d == 5 {
        '5'
    } else if d == 6 {
        '6'
    } else if d == 7 {
        '7'
    } else if d == 8 {
        '8'
    } else {
        '9'
    }
}

/// The decimal rendering of a number, most significant digit first, with
/// no leading zeros except for the number zero itself.
pub open spec fn dec_seq(n: nat) -> Seq<char>
    decreases n,
{
    if n < 10 {
        seq![dec_digit_char(n)]
    } else {
        dec_seq(n / 10).push(dec_digit_char(n % 10))
    }
}

fn dec_digit(d: usize) -> (c: char)
    requires
        d < 10,
    ensures
        c == dec_digit_char(d as nat),
{
    if d == 0 {
        '0'
    } else if d == 1 {
        '1'
    } else if d == 2 {
        '2'
    } else if d == 3 {
        '3'
    } else if d == 4 {
        '4'
    } else if d == 5 {
        '5'
    } else if d == 6 {
        '6'
    } else if d == 7 {
        '7'
    } else if d == 8 {
        '8'
    } else {
        '9'
    }
}

/// Renders an offset in decimal.
fn to_decimal(n: usize) -> (s: String)
    ensures
        s@ == dec_seq(n as nat),
    decreases n,
{
    if n < 10 {
        let mut s = String::new();
        string_push(&mut s, dec_digit(n));
        proof {
            assert(s@ =~= dec_seq(n as nat));
        }
        s
    } else {
        let mut s = to_decimal(n / 10);
        string_push(&mut s, dec_digit(n % 10));
        s
    }
}

impl<'source> LatexError<'source> {
    /// The offset and the rendered message together, as the top-level
    /// conversion entry point surfaces them: the offset in decimal, a
    /// colon, a space, and the kind's message.
    pub fn string(&self) -> (r: String)
        ensures
            r@ == dec_seq(self.0 as nat) + ": "@ + message(self.1),
    {
        let mut s = to_decimal(self.0);
        s.append(": ");
        s.append(self.1.string().as_str());
        proof {
            assert(s@ =~= dec_seq(self.0 as nat) + ": "@ + message(self.1));
        }
        s
    }
}

/// Extraction of a value that the caller has already shown to be present.
pub trait ExpectOptim {
    type Inner;

    /// Whether a value is present to extract.
    spec fn has_inner(&self) -> bool;

    /// The contained value, when one is present.
    spec fn spec_inner(&self) -> Self::Inner;

    /// Version of `Option::expect` restricted to values shown present, so
    /// that no panic path has to be compiled in.
    fn expect_optim(self, msg: &str) -> (r: Self::Inner)
        requires
            self.has_inner(),
        ensures
            r == self.spec_inner(),
    ;
}

impl<T> ExpectOptim for Option<T> {
    type Inner = T;

    open spec fn has_inner(&self) -> bool {
        self is Some
    }

    open spec fn spec_inner(&self) -> T {
        self->0
    }

    fn expect_optim(self, _msg: &str) -> (r: T) {
        match self {
            Option::Some(t) => t,
            Option::None => vstd::pervasive::unreached(),
        }
    }
}

/// Infallible substring extraction over character positions.
pub trait GetUnwrap {
    /// The characters of the sliced value.
    spec fn spec_chars(&self) -> Seq<char>;

    /// `str::get` with `Option::unwrap`: the substring over a range of
    /// character positions that the caller has already shown to be in
    /// bounds.
    fn get_unwrap(&self, range: core::ops::Range<usize>) -> (r: &str)
        requires
            range.start <= range.end <= self.spec_chars().len(),
        ensures
            r@ == self.spec_chars().subrange(range.start as int, range.end as int),
    ;
}

impl GetUnwrap for str {
    open spec fn spec_chars(&self) -> Seq<char> {
        self@
    }

    fn get_unwrap(&self, range: core::ops::Range<usize>) -> (r: &str) {
        self.substring_char(range.start, range.end)
    }
}

} // verus!
