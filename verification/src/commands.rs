//! Command-name resolution: given the bare name read after a backslash,
//! deterministically return either a fully resolved token or an
//! unknown-command token carrying the name, so the grammar layer can report
//! it.

use vstd::prelude::*;
use vstd::string::StrSliceExecFns;
use crate::ops::Op;
use crate::token::Token;

verus! {

/// Whether the command table recognizes this command name.
pub open spec fn known_command(name: Seq<char>) -> bool {
    ||| name == " "@
    ||| name == ","@
    ||| name == "alpha"@
    ||| name == "beta"@
    ||| name == "gamma"@
    ||| name == "delta"@
    ||| name == "epsilon"@
    ||| name == "theta"@
    ||| name == "lambda"@
    ||| name == "mu"@
    ||| name == "pi"@
    ||| name == "sigma"@
    ||| name == "phi"@
    ||| name == "omega"@
    ||| name == "infty"@
    ||| name == "partial"@
    ||| name == "nabla"@
    ||| name == "times"@
    ||| name == "cdot"@
    ||| name == "pm"@
    ||| name == "mp"@
    ||| name == "div"@
    ||| name == "leq"@
    ||| name == "geq"@
    ||| name == "neq"@
    ||| name == "colon"@
    ||| name == "{"@
    ||| name == "}"@
    ||| name == "|"@
    ||| name == "langle"@
    ||| name == "rangle"@
    ||| name == "lceil"@
    ||| name == "rceil"@
    ||| name == "lfloor"@
    ||| name == "rfloor"@
}

/// The token that a recognized command name resolves to.
pub open spec fn command_token(name: Seq<char>) -> Token<'static> {
    if name == " "@ {
        Token::Space("1")
    } else if name == ","@ {
        Token::Space("0.1667")
    } else if name == "alpha"@ {
        Token::Letter('α')
    } else if name == "beta"@ {
        Token::Letter('β')
    } else if name == "gamma"@ {
        Token::Letter('γ')
    } else if name == "delta"@ {
        Token::Letter('δ')
    } else if name == "epsilon"@ {
        Token::Letter('ε')
    } else if name == "theta"@ {
        Token::Letter('θ')
    } else if name == "lambda"@ {
        Token::Letter('λ')
    } else if name == "mu"@ {
        Token::Letter('μ')
    } else if name == "pi"@ {
        Token::Letter('π')
    } else if name == "sigma"@ {
        Token::Letter('σ')
    } else if name == "phi"@ {
        Token::Letter('φ')
    } else if name == "omega"@ {
        Token::Letter('ω')
    } else if name == "infty"@ {
        Token::NormalLetter('∞')
    } else if name == "partial"@ {
        Token::NormalLetter('∂')
    } else if name == "nabla"@ {
        Token::NormalLetter('∇')
    } else if name == "times"@ {
        Token::Operator(Op('×'))
    } else if name == "cdot"@ {
        Token::Operator(Op('·'))
    } else if name == "pm"@ {
        Token::Operator(Op('±'))
    } else if name == "mp"@ {
        Token::Operator(Op('∓'))
    } else if name == "div"@ {
        Token::Operator(Op('÷'))
    } else if name == "leq"@ {
        Token::Operator(Op('≤'))
    } else if name == "geq"@ {
        Token::Operator(Op('≥'))
    } else if name == "neq"@ {
        Token::Operator(Op('≠'))
    } else if name == "colon"@ {
        Token::Operator(Op(':'))
    } else if name == "{"@ {
        Token::Paren(crate::ops::ParenOp('{', false, crate::attribute::Stretchy::Always))
    } else if name == "}"@ {
        Token::Paren(crate::ops::ParenOp('}', false, crate::attribute::Stretchy::Always))
    } else if name == "|"@ {
        Token::Paren(crate::ops::ParenOp('‖', true, crate::attribute::Stretchy::PrePostfix))
    } else if name == "langle"@ {
        Token::Paren(crate::ops::ParenOp('⟨', false, crate::attribute::Stretchy::Always))
    } else if name == "rangle"@ {
        Token::Paren(crate::ops::ParenOp('⟩', false, crate::attribute::Stretchy::Always))
    } else if name == "lceil"@ {
        Token::Paren(crate::ops::ParenOp('⌈', false, crate::attribute::Stretchy::Always))
    } else if name == "rceil"@ {
        Token::Paren(crate::ops::ParenOp('⌉', false, crate::attribute::Stretchy::Always))
    } else if name == "lfloor"@ {
        Token::Paren(crate::ops::ParenOp('⌊', false, crate::attribute::Stretchy::Always))
    } else if name == "rfloor"@ {
        Token::Paren(crate::ops::ParenOp('⌋', false, crate::attribute::Stretchy::Always))
    } else {
        // Unrecognized names resolve to an unknown-command token instead;
        // this function is only meaningful on recognized names.
        vstd::pervasive::arbitrary()
    }
}

/// Character-by-character string equality.
fn str_eq(a: &str, b: &str) -> (r: bool)
    ensures
        r == (a@ == b@),
{
    let na = a.unicode_len();
    let nb = b.unicode_len();
    if na != nb {
        proof {
            assert(a@ != b@) by {
                if a@ == b@ {
                    assert(a@.len() == b@.len());
                }
            }
        }
        return false;
    }
    let mut i: usize = 0;
    while i < na
        invariant
            na == a@.len(),
            na == b@.len(),
            i <= na,
            forall|k: int| 0 <= k < i ==> a@[k] == b@[k],
        decreases na - i,
    {
        if a.get_char(i) != b.get_char(i) {
            proof {
                assert(a@[i as int] != b@[i as int]);
            }
            return false;
        }
        i = i + 1;
    }
    proof {
        assert(a@ =~= b@);
    }
    true
}

/// Resolve a bare command name (the text after the backslash) to a token.
/// Any string is accepted: an unrecognized name comes back as an
/// unknown-command token carrying that name.
pub fn get_command<'source>(name: &'source str) -> (t: Token<'source>)
    ensures
        known_command(name@) ==> t == command_token(name@),
        !known_command(name@) ==> t == Token::<'source>::UnknownCommand(name),
{
    if str_eq(name, " ") {
        Token::Space("1")
    } else if str_eq(name, ",") {
        Token::Space("0.1667")
    } else if str_eq(name, "alpha") {
        Token::Letter('α')
    } else if str_eq(name, "beta") {
        Token::Letter('β')
    } else if str_eq(name, "gamma") {
        Token::Letter('γ')
    } else if str_eq(name, "delta") {
        Token::Letter('δ')
    } else if str_eq(name, "epsilon") {
        Token::Letter('ε')
    } else if str_eq(name, "theta") {
        Token::Letter('θ')
    } else if str_eq(name, "lambda") {
        Token::Letter('λ')
    } else if str_eq(name, "mu") {
        Token::Letter('μ')
    } else if str_eq(name, "pi") {
        Token::Letter('π')
    } else if str_eq(name, "sigma") {
        Token::Letter('σ')
    } else if str_eq(name, "phi") {
        Token::Letter('φ')
    } else if str_eq(name, "omega") {
        Token::Letter('ω')
    } else if str_eq(name, "infty") {
        Token::NormalLetter('∞')
    } else if str_eq(name, "partial") {
        Token::NormalLetter('∂')
    } else if str_eq(name, "nabla") {
        Token::NormalLetter('∇')
    } else if str_eq(name, "times") {
        Token::Operator(crate::ops::multiplication_sign().as_op())
    } else if str_eq(name, "cdot") {
        Token::Operator(crate::ops::middle_dot().as_op())
    } else if str_eq(name, "pm") {
        Token::Operator(crate::ops::plus_minus_sign().as_op())
    } else if str_eq(name, "mp") {
        Token::Operator(crate::ops::minus_or_plus_sign().as_op())
    } else if str_eq(name, "div") {
        Token::Operator(crate::ops::division_sign().as_op())
    } else if str_eq(name, "leq") {
        Token::Operator(crate::ops::less_than_or_equal_to().as_op())
    } else if str_eq(name, "geq") {
        Token::Operator(crate::ops::greater_than_or_equal_to().as_op())
    } else if str_eq(name, "neq") {
        Token::Operator(crate::ops::not_equal_to().as_op())
    } else if str_eq(name, "colon") {
        Token::Operator(crate::ops::colon().as_op())
    } else if str_eq(name, "{") {
        Token::Paren(crate::ops::left_curly_bracket())
    } else if str_eq(name, "}") {
        Token::Paren(crate::ops::right_curly_bracket())
    } else if str_eq(name, "|") {
        Token::Paren(crate::ops::double_vertical_line())
    } else if str_eq(name, "langle") {
        Token::Paren(crate::ops::mathematical_left_angle_bracket())
    } else if str_eq(name, "rangle") {
        Token::Paren(crate::ops::mathematical_right_angle_bracket())
    } else if str_eq(name, "lceil") {
        Token::Paren(crate::ops::left_ceiling())
    } else if str_eq(name, "rceil") {
        Token::Paren(crate::ops::right_ceiling())
    } else if str_eq(name, "lfloor") {
        Token::Paren(crate::ops::left_floor())
    } else if str_eq(name, "rfloor") {
        Token::Paren(crate::ops::right_floor())
    } else {
        Token::UnknownCommand(name)
    }
}

} // verus!
