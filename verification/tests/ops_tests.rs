use latex2mmlc::attribute::Stretchy;
use latex2mmlc::ops;
use latex2mmlc::ops::Op;

#[test]
fn round_trip_reproduces_scalar() {
    // Classifying a symbol and converting back to the plain character
    // reproduces the original Unicode scalar, in every category.
    assert_eq!(ops::circumflex_accent().as_char(), '^');
    assert_eq!(ops::equals_sign().as_op().as_char(), '=');
    assert_eq!(ops::plus_sign().as_op().as_char(), '+');
    assert_eq!(ops::for_all().as_op().as_char(), '∀');
    assert_eq!(ops::n_ary_summation().as_op().as_char(), '∑');
    assert_eq!(ops::integral().as_op().as_char(), '∫');
    assert_eq!(ops::left_parenthesis().as_char(), '(');
    assert_eq!(ops::double_vertical_line().as_char(), '‖');
}

#[test]
fn fence_metadata() {
    assert!(!ops::left_parenthesis().ordinary_spacing());
    assert_eq!(ops::left_parenthesis().stretchy(), Stretchy::Always);

    // A solidus is spaced like an ordinary identifier and never stretches.
    assert!(ops::solidus().ordinary_spacing());
    assert_eq!(ops::solidus().stretchy(), Stretchy::Never);

    assert!(ops::vertical_line().ordinary_spacing());
    assert_eq!(ops::vertical_line().stretchy(), Stretchy::PrePostfix);

    assert!(!ops::upwards_arrow().ordinary_spacing());
    assert_eq!(ops::upwards_arrow().stretchy(), Stretchy::Inconsistent);
}

#[test]
fn character_constants() {
    assert_eq!(ops::FULL_STOP, '.');
    assert_eq!(ops::INFINITY, '∞');
    assert_eq!(ops::COMPLEMENT, '∁');
}

#[test]
fn relation_and_binary_examples() {
    assert_eq!(ops::not_equal_to().as_op().as_char(), '≠');
    assert_eq!(ops::much_less_than().as_op().as_char(), '≪');
    assert_eq!(ops::minus_sign().as_op().as_char(), '\u{2212}');
    assert_eq!(ops::multiplication_sign().as_op().as_char(), '×');
}

#[test]
fn from_conversions() {
    assert_eq!(char::from(ops::tilde()), '~');
    assert_eq!(Op::from(ops::equals_sign()).as_char(), '=');
    assert_eq!(Op::from(ops::plus_sign()).as_char(), '+');
    assert_eq!(Op::from(ops::integral()).as_char(), '∫');
    assert_eq!(char::from(&ops::solidus()), '/');
}
