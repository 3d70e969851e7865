use latex2mmlc::error::{ExpectOptim, GetUnwrap, LatexErrKind, LatexError, Place};
use latex2mmlc::ops::Op;
use latex2mmlc::token::Token;

#[test]
fn unexpected_token_message() {
    let kind = LatexErrKind::UnexpectedToken {
        expected: Token::GroupEnd,
        got: Token::Operator(Op('+')),
    };
    assert_eq!(
        kind.string(),
        "Expected token \"GroupEnd\", but found token \"Operator\"."
    );
}

#[test]
fn unclosed_group_message() {
    let kind = LatexErrKind::UnclosedGroup(Token::GroupEnd);
    assert_eq!(kind.string(), "Expected token \"GroupEnd\", but not found.");
}

#[test]
fn unexpected_close_message() {
    let kind = LatexErrKind::UnexpectedClose(Token::GroupEnd);
    assert_eq!(kind.string(), "Unexpected closing token: \"GroupEnd\".");
}

#[test]
fn unexpected_eof_message() {
    let kind = LatexErrKind::UnexpectedEOF;
    assert_eq!(kind.string(), "Unexpected end of file.");
}

#[test]
fn missing_parenthesis_message() {
    let kind = LatexErrKind::MissingParenthesis {
        location: Token::Circumflex,
        got: Token::Letter('x'),
    };
    assert_eq!(
        kind.string(),
        "There must be a parenthesis after \"Circumflex\", but not found. Instead, \"Letter\" was found."
    );
}

#[test]
fn unknown_environment_message() {
    let kind = LatexErrKind::UnknownEnvironment("matrixx");
    assert_eq!(kind.string(), "Unknown environment \"matrixx\".");
}

#[test]
fn unknown_command_message() {
    let kind = LatexErrKind::UnknownCommand("frobnicate");
    assert_eq!(kind.string(), "Unknown command \"\\frobnicate\".");
}

#[test]
fn mismatched_environment_message() {
    let kind = LatexErrKind::MismatchedEnvironment {
        expected: "matrix",
        got: "pmatrix",
    };
    assert_eq!(
        kind.string(),
        "Expected \"\\end{matrix}\", but got \"\\end{pmatrix}\"."
    );
}

#[test]
fn cannot_be_used_here_message() {
    let kind = LatexErrKind::CannotBeUsedHere {
        got: Token::Underscore,
        correct_place: Place::AfterBigOp,
    };
    assert_eq!(
        kind.string(),
        "Got \"Underscore\", which may only appear after \\int, \\sum, ...."
    );
}

#[test]
fn expected_text_message() {
    let kind = LatexErrKind::ExpectedText("\\text");
    assert_eq!(kind.string(), "Expected text in \\text.");
}

#[test]
fn place_names() {
    assert_eq!(Place::AfterBigOp.as_str(), "after \\int, \\sum, ...");
    assert_eq!(Place::BeforeSomeOps.as_str(), "before supported operators");
    assert_eq!(
        Place::AfterOpOrIdent.as_str(),
        "after an identifier or operator"
    );
}

#[test]
fn error_with_offset() {
    let err = LatexError(42, LatexErrKind::UnexpectedEOF);
    assert_eq!(err.string(), "42: Unexpected end of file.");

    let err = LatexError(0, LatexErrKind::UnknownCommand("x"));
    assert_eq!(err.string(), "0: Unknown command \"\\x\".");

    let err = LatexError(1234567890, LatexErrKind::UnexpectedEOF);
    assert_eq!(err.string(), "1234567890: Unexpected end of file.");
}

#[test]
fn expect_optim_returns_inner() {
    let v: Option<u32> = Some(5);
    assert_eq!(v.expect_optim("value must be present"), 5);
}

#[test]
fn get_unwrap_slices_by_character() {
    let s = "hello";
    assert_eq!(s.get_unwrap(1..3), "el");
    assert_eq!(s.get_unwrap(0..0), "");
    assert_eq!(s.get_unwrap(0..5), "hello");
}
