use latex2mmlc::lexer::Lexer;
use latex2mmlc::ops;
use latex2mmlc::ops::Op;
use latex2mmlc::token::Token;

#[test]
fn lexer_test() {
    let problems = vec![
        (r"3", vec![Token::Number("3", None)]),
        (r"3.14", vec![Token::Number("3.14", None)]),
        (r"3.14.", vec![Token::Number("3.14", Some(Op('.')))]),
        (
            r"3..14",
            vec![
                Token::Number("3", Some(Op('.'))),
                Token::Operator(Op('.')),
                Token::Number("14", None),
            ],
        ),
        (r"x", vec![Token::Letter('x')]),
        (r"\pi", vec![Token::Letter('π')]),
        (
            r"x = 3.14",
            vec![
                Token::Letter('x'),
                Token::Operator(ops::equals_sign().as_op()),
                Token::Number("3.14", None),
            ],
        ),
        (r"\alpha\beta", vec![Token::Letter('α'), Token::Letter('β')]),
        (
            r"x+y",
            vec![
                Token::Letter('x'),
                Token::Operator(ops::plus_sign().as_op()),
                Token::Letter('y'),
            ],
        ),
        (
            r"\ 1",
            vec![Token::Space("1"), Token::Number("1", None)],
        ),
    ];

    for (problem, answer) in problems.iter() {
        let mut lexer = Lexer::new(problem);
        for answer in answer.iter() {
            assert_eq!(&lexer.next_token(false), answer);
        }
    }
}

#[test]
fn number_with_trailing_comma() {
    let mut lexer = Lexer::new("3,x");
    assert_eq!(lexer.next_token(false), Token::Number("3", Some(Op(','))));
    assert_eq!(lexer.next_token(false), Token::Letter('x'));
}

#[test]
fn number_with_mixed_separators() {
    // Both separators stay part of the number as long as a digit follows.
    let mut lexer = Lexer::new("1.2,3");
    assert_eq!(lexer.next_token(false), Token::Number("1.2,3", None));
    assert_eq!(lexer.next_token(false), Token::EOF);
}

#[test]
fn digit_hint_takes_single_digit() {
    let mut lexer = Lexer::new("123");
    assert_eq!(lexer.next_token(true), Token::Number("1", None));
    assert_eq!(lexer.next_token(false), Token::Number("23", None));
    assert_eq!(lexer.next_token(false), Token::EOF);
}

#[test]
fn digit_hint_without_digit_falls_through() {
    let mut lexer = Lexer::new(" x");
    assert_eq!(lexer.next_token(true), Token::Letter('x'));
}

#[test]
fn lone_backslash_terminates() {
    // A trailing backslash still produces a token and ends cleanly.
    let mut lexer = Lexer::new(r"\");
    assert_eq!(lexer.next_token(false), Token::UnknownCommand(""));
    assert_eq!(lexer.next_token(false), Token::EOF);
}

#[test]
fn backslash_non_letter_advances() {
    // The command read consumes exactly one non-alphabetic character.
    let mut lexer = Lexer::new(r"\?x");
    assert_eq!(lexer.next_token(false), Token::UnknownCommand("?"));
    assert_eq!(lexer.next_token(false), Token::Letter('x'));
}

#[test]
fn unknown_command_name() {
    let mut lexer = Lexer::new(r"\frobnicate");
    assert_eq!(lexer.next_token(false), Token::UnknownCommand("frobnicate"));
}

#[test]
fn text_content_plain() {
    let mut lexer = Lexer::new("{a}");
    assert_eq!(lexer.next_token(false), Token::GroupBegin);
    assert_eq!(lexer.read_text_content(), Some("a"));
    assert_eq!(lexer.next_token(false), Token::EOF);
}

#[test]
fn text_content_nested_braces() {
    let mut lexer = Lexer::new("{a{b}c}");
    assert_eq!(lexer.next_token(false), Token::GroupBegin);
    assert_eq!(lexer.read_text_content(), Some("a{b}c"));
}

#[test]
fn text_content_escaped_braces() {
    let mut lexer = Lexer::new(r"{a\{b\}c}");
    assert_eq!(lexer.next_token(false), Token::GroupBegin);
    assert_eq!(lexer.read_text_content(), Some(r"a\{b\}c"));
}

#[test]
fn text_content_unclosed_fails() {
    let mut lexer = Lexer::new("{abc");
    assert_eq!(lexer.next_token(false), Token::GroupBegin);
    assert_eq!(lexer.read_text_content(), None);
}

#[test]
fn text_content_bad_escape_fails() {
    let mut lexer = Lexer::new(r"{a\x}");
    assert_eq!(lexer.next_token(false), Token::GroupBegin);
    assert_eq!(lexer.read_text_content(), None);
}

#[test]
fn fixed_punctuation_tokens() {
    let mut lexer = Lexer::new("(_^&:~'<>)[]|");
    assert_eq!(
        lexer.next_token(false),
        Token::Paren(ops::left_parenthesis())
    );
    assert_eq!(lexer.next_token(false), Token::Underscore);
    assert_eq!(lexer.next_token(false), Token::Circumflex);
    assert_eq!(lexer.next_token(false), Token::Ampersand);
    assert_eq!(lexer.next_token(false), Token::Colon);
    assert_eq!(lexer.next_token(false), Token::NonBreakingSpace);
    assert_eq!(lexer.next_token(false), Token::Prime);
    assert_eq!(lexer.next_token(false), Token::OpLessThan);
    assert_eq!(lexer.next_token(false), Token::OpGreaterThan);
    assert_eq!(
        lexer.next_token(false),
        Token::Paren(ops::right_parenthesis())
    );
    assert_eq!(
        lexer.next_token(false),
        Token::Paren(ops::left_square_bracket())
    );
    assert_eq!(
        lexer.next_token(false),
        Token::Paren(ops::right_square_bracket())
    );
    assert_eq!(lexer.next_token(false), Token::Paren(ops::vertical_line()));
    assert_eq!(lexer.next_token(false), Token::EOF);
}

#[test]
fn minus_becomes_mathematical_minus() {
    let mut lexer = Lexer::new("a-b");
    assert_eq!(lexer.next_token(false), Token::Letter('a'));
    assert_eq!(lexer.next_token(false), Token::Operator(Op('\u{2212}')));
    assert_eq!(lexer.next_token(false), Token::Letter('b'));
}

#[test]
fn non_alphabetic_becomes_normal_letter() {
    let mut lexer = Lexer::new("π?");
    assert_eq!(lexer.next_token(false), Token::NormalLetter('π'));
    assert_eq!(lexer.next_token(false), Token::NormalLetter('?'));
}

#[test]
fn known_commands_resolve() {
    let mut lexer = Lexer::new(r"\times\langle\infty\leq");
    assert_eq!(
        lexer.next_token(false),
        Token::Operator(ops::multiplication_sign().as_op())
    );
    assert_eq!(
        lexer.next_token(false),
        Token::Paren(ops::mathematical_left_angle_bracket())
    );
    assert_eq!(lexer.next_token(false), Token::NormalLetter('∞'));
    assert_eq!(
        lexer.next_token(false),
        Token::Operator(ops::less_than_or_equal_to().as_op())
    );
}

#[test]
fn escaped_brace_is_paren_token() {
    let mut lexer = Lexer::new(r"\{x\}");
    assert_eq!(
        lexer.next_token(false),
        Token::Paren(ops::left_curly_bracket())
    );
    assert_eq!(lexer.next_token(false), Token::Letter('x'));
    assert_eq!(
        lexer.next_token(false),
        Token::Paren(ops::right_curly_bracket())
    );
}

#[test]
fn empty_input_is_eof() {
    let mut lexer = Lexer::new("");
    assert_eq!(lexer.next_token(false), Token::EOF);
    assert_eq!(lexer.next_token(false), Token::EOF);
}

#[test]
fn read_char_advances_and_saturates() {
    let mut lexer = Lexer::new("ab");
    assert_eq!(lexer.read_char(), (0, 'a'));
    assert_eq!(lexer.read_char(), (1, 'b'));
    assert_eq!(lexer.read_char(), (2, '\u{0}'));
    assert_eq!(lexer.read_char(), (2, '\u{0}'));
}
