//! Symbol classification: every recognized mathematical symbol is assigned,
//! at definition time, exactly one of five semantic categories that governs
//! its spacing and stretch behaviour downstream. Each category converts
//! losslessly to the plain-operator representation (a single Unicode scalar),
//! for code paths that only need the character and not the semantic role.
//!
//! The table at the bottom of this module enumerates the classified symbols,
//! one constructor per symbol, grouped by Unicode block. A symbol is
//! classified into exactly one category here; there is no runtime
//! re-classification.

use vstd::prelude::*;
use crate::attribute::Stretchy;

verus! {

/// A plain operator: a single character rendered with operator spacing.
#[derive(Debug, Clone, Copy, PartialEq, Eq)]
pub struct Op(pub char);

impl Op {
    /// The character this operator stands for.
    pub fn as_char(&self) -> (c: char)
        ensures
            c == self.0,
    {
        self.0
    }
}

/// A relation symbol, such as an equality or ordering sign.
#[derive(Debug, Clone, Copy, PartialEq, Eq)]
pub struct Rel(pub char);

impl Rel {
    /// Spec-level counterpart of [`Rel::as_op`].
    pub open spec fn as_op_spec(&self) -> Op {
        Op(self.0)
    }

    /// The plain-operator representation of this relation.
    pub fn as_op(&self) -> (op: Op)
        ensures
            op == self.as_op_spec(),
    {
        Op(self.0)
    }
}

/// A binary operator, such as a plus or times sign.
#[derive(Debug, Clone, Copy, PartialEq, Eq)]
pub struct Bin(pub char);

impl Bin {
    /// Spec-level counterpart of [`Bin::as_op`].
    pub open spec fn as_op_spec(&self) -> Op {
        Op(self.0)
    }

    /// The plain-operator representation of this binary operator.
    pub fn as_op(&self) -> (op: Op)
        ensures
            op == self.as_op_spec(),
    {
        Op(self.0)
    }
}

/// A large (n-ary) operator, such as a sum or integral sign.
#[derive(Debug, Clone, Copy, PartialEq, Eq)]
pub struct Big(pub char);

impl Big {
    /// Spec-level counterpart of [`Big::as_op`].
    pub open spec fn as_op_spec(&self) -> Op {
        Op(self.0)
    }

    /// The plain-operator representation of this large operator.
    pub fn as_op(&self) -> (op: Op)
        ensures
            op == self.as_op_spec(),
    {
        Op(self.0)
    }
}

/// A fence (bracket-like) operator together with its spacing and stretch
/// metadata: the character, whether it is rendered with ordinary
/// identifier-like spacing instead of reduced operator spacing, and its
/// stretch policy.
#[derive(Debug, Clone, Copy, PartialEq, Eq)]
pub struct ParenOp(pub char, pub bool, pub Stretchy);

impl ParenOp {
    /// The fence behaves like a normal identifier for spacing purposes
    /// (which is different from an operator with reduced spacing).
    pub fn ordinary_spacing(&self) -> (b: bool)
        ensures
            b == self.1,
    {
        self.1
    }

    /// The stretch policy of this fence.
    pub fn stretchy(&self) -> (s: Stretchy)
        ensures
            s == self.2,
    {
        self.2
    }

    /// The character this fence stands for.
    pub fn as_char(&self) -> (c: char)
        ensures
            c == self.0,
    {
        self.0
    }
}

impl From<Op> for char {
    fn from(op: Op) -> (c: char) {
        op.0
    }
}

impl vstd::std_specs::convert::FromSpecImpl<Op> for char {
    open spec fn obeys_from_spec() -> bool {
        true
    }

    open spec fn from_spec(op: Op) -> char {
        op.0
    }
}

impl From<Rel> for Op {
    fn from(op: Rel) -> (r: Op) {
        Op(op.0)
    }
}

impl vstd::std_specs::convert::FromSpecImpl<Rel> for Op {
    open spec fn obeys_from_spec() -> bool {
        true
    }

    open spec fn from_spec(op: Rel) -> Op {
        Op(op.0)
    }
}

impl From<Bin> for Op {
    fn from(op: Bin) -> (r: Op) {
        Op(op.0)
    }
}

impl vstd::std_specs::convert::FromSpecImpl<Bin> for Op {
    open spec fn obeys_from_spec() -> bool {
        true
    }

    open spec fn from_spec(op: Bin) -> Op {
        Op(op.0)
    }
}

impl From<Big> for Op {
    fn from(op: Big) -> (r: Op) {
        Op(op.0)
    }
}

impl vstd::std_specs::convert::FromSpecImpl<Big> for Op {
    open spec fn obeys_from_spec() -> bool {
        true
    }

    open spec fn from_spec(op: Big) -> Op {
        Op(op.0)
    }
}

impl<'a> From<&'a ParenOp> for char {
    fn from(op: &'a ParenOp) -> (c: char) {
        op.0
    }
}

impl<'a> vstd::std_specs::convert::FromSpecImpl<&'a ParenOp> for char {
    open spec fn obeys_from_spec() -> bool {
        true
    }

    open spec fn from_spec(op: &'a ParenOp) -> char {
        op.0
    }
}

/// Round-trip law of the classification scheme: classifying a character
/// into any of the five categories and converting the result back to the
/// plain character reproduces the original Unicode scalar. No category
/// loses or alters the underlying character.
pub proof fn lemma_classification_round_trip(c: char, ordinary: bool, stretchy: Stretchy)
    ensures
        Op(c).0 == c,
        Rel(c).as_op_spec().0 == c,
        Bin(c).as_op_spec().0 == c,
        Big(c).as_op_spec().0 == c,
        ParenOp(c, ordinary, stretchy).0 == c,
{
}

//
// Unicode Block: Basic Latin
//

pub fn null() -> (r: ParenOp)
    ensures
        r == ParenOp('\u{0}', false, Stretchy::Always),
{
    ParenOp('\u{0}', false, Stretchy::Always)
}

pub fn exclamation_mark() -> (r: Rel)
    ensures
        r == Rel('!'),
{
    Rel('!')
}

pub fn left_parenthesis() -> (r: ParenOp)
    ensures
        r == ParenOp('(', false, Stretchy::Always),
{
    ParenOp('(', false, Stretchy::Always)
}

pub fn right_parenthesis() -> (r: ParenOp)
    ensures
        r == ParenOp(')', false, Stretchy::Always),
{
    ParenOp(')', false, Stretchy::Always)
}

pub fn plus_sign() -> (r: Bin)
    ensures
        r == Bin('+'),
{
    Bin('+')
}

pub fn comma() -> (r: Rel)
    ensures
        r == Rel(','),
{
    Rel(',')
}

// Not treated as an operator.
pub const FULL_STOP: char = '.';

pub fn solidus() -> (r: ParenOp)
    ensures
        r == ParenOp('/', true, Stretchy::Never),
{
    ParenOp('/', true, Stretchy::Never)
}

pub fn colon() -> (r: Rel)
    ensures
        r == Rel(':'),
{
    Rel(':')
}

pub fn semicolon() -> (r: Rel)
    ensures
        r == Rel(';'),
{
    Rel(';')
}

pub fn equals_sign() -> (r: Rel)
    ensures
        r == Rel('='),
{
    Rel('=')
}

pub fn left_square_bracket() -> (r: ParenOp)
    ensures
        r == ParenOp('[', false, Stretchy::Always),
{
    ParenOp('[', false, Stretchy::Always)
}

pub fn reverse_solidus() -> (r: ParenOp)
    ensures
        r == ParenOp('\\', true, Stretchy::Never),
{
    ParenOp('\\', true, Stretchy::Never)
}

pub fn right_square_bracket() -> (r: ParenOp)
    ensures
        r == ParenOp(']', false, Stretchy::Always),
{
    ParenOp(']', false, Stretchy::Always)
}

pub fn circumflex_accent() -> (r: Op)
    ensures
        r == Op('^'),
{
    Op('^')
}

pub fn low_line() -> (r: Op)
    ensures
        r == Op('_'),
{
    Op('_')
}

pub fn grave_accent() -> (r: Op)
    ensures
        r == Op('`'),
{
    Op('`')
}

pub fn left_curly_bracket() -> (r: ParenOp)
    ensures
        r == ParenOp('{', false, Stretchy::Always),
{
    ParenOp('{', false, Stretchy::Always)
}

pub fn vertical_line() -> (r: ParenOp)
    ensures
        r == ParenOp('|', true, Stretchy::PrePostfix),
{
    ParenOp('|', true, Stretchy::PrePostfix)
}

pub fn right_curly_bracket() -> (r: ParenOp)
    ensures
        r == ParenOp('}', false, Stretchy::Always),
{
    ParenOp('}', false, Stretchy::Always)
}

pub fn tilde() -> (r: Op)
    ensures
        r == Op('~'),
{
    Op('~')
}

//
// Unicode Block: Latin-1 Supplement
//

pub fn diaeresis() -> (r: Op)
    ensures
        r == Op('¨'),
{
    Op('¨')
}

pub fn not_sign() -> (r: Rel)
    ensures
        r == Rel('¬'),
{
    Rel('¬')
}

pub fn macron() -> (r: Op)
    ensures
        r == Op('¯'),
{
    Op('¯')
}

pub fn plus_minus_sign() -> (r: Bin)
    ensures
        r == Bin('±'),
{
    Bin('±')
}

pub fn acute_accent() -> (r: Op)
    ensures
        r == Op('´'),
{
    Op('´')
}

pub fn middle_dot() -> (r: Bin)
    ensures
        r == Bin('·'),
{
    Bin('·')
}

pub fn multiplication_sign() -> (r: Bin)
    ensures
        r == Bin('×'),
{
    Bin('×')
}

pub fn division_sign() -> (r: Bin)
    ensures
        r == Bin('÷'),
{
    Bin('÷')
}

//
// Unicode Block: Spacing Modifier Letters
//

pub fn caron() -> (r: Op)
    ensures
        r == Op('ˇ'),
{
    Op('ˇ')
}

pub fn breve() -> (r: Op)
    ensures
        r == Op('˘'),
{
    Op('˘')
}

pub fn dot_above() -> (r: Op)
    ensures
        r == Op('˙'),
{
    Op('˙')
}

//
// Unicode Block: General Punctuation
//

pub fn double_vertical_line() -> (r: ParenOp)
    ensures
        r == ParenOp('‖', true, Stretchy::PrePostfix),
{
    ParenOp('‖', true, Stretchy::PrePostfix)
}

pub fn horizontal_ellipsis() -> (r: Rel)
    ensures
        r == Rel('…'),
{
    Rel('…')
}

pub fn prime() -> (r: Rel)
    ensures
        r == Rel('′'),
{
    Rel('′')
}

pub fn double_prime() -> (r: Rel)
    ensures
        r == Rel('″'),
{
    Rel('″')
}

pub fn triple_prime() -> (r: Rel)
    ensures
        r == Rel('‴'),
{
    Rel('‴')
}

pub fn reversed_prime() -> (r: Rel)
    ensures
        r == Rel('‵'),
{
    Rel('‵')
}

pub fn reversed_double_prime() -> (r: Rel)
    ensures
        r == Rel('‶'),
{
    Rel('‶')
}

pub fn reversed_triple_prime() -> (r: Rel)
    ensures
        r == Rel('‷'),
{
    Rel('‷')
}

pub fn overline() -> (r: Rel)
    ensures
        r == Rel('‾'),
{
    Rel('‾')
}

pub fn quadruple_prime() -> (r: Rel)
    ensures
        r == Rel('⁗'),
{
    Rel('⁗')
}

//
// Unicode Block: Arrows
//

pub fn leftwards_arrow() -> (r: Rel)
    ensures
        r == Rel('←'),
{
    Rel('←')
}

pub fn upwards_arrow() -> (r: ParenOp)
    ensures
        r == ParenOp('↑', false, Stretchy::Inconsistent),
{
    ParenOp('↑', false, Stretchy::Inconsistent)
}

pub fn rightwards_arrow() -> (r: Rel)
    ensures
        r == Rel('→'),
{
    Rel('→')
}

pub fn downwards_arrow() -> (r: ParenOp)
    ensures
        r == ParenOp('↓', false, Stretchy::Inconsistent),
{
    ParenOp('↓', false, Stretchy::Inconsistent)
}

pub fn left_right_arrow() -> (r: Rel)
    ensures
        r == Rel('↔'),
{
    Rel('↔')
}

pub fn up_down_arrow() -> (r: ParenOp)
    ensures
        r == ParenOp('↕', false, Stretchy::Inconsistent),
{
    ParenOp('↕', false, Stretchy::Inconsistent)
}

pub fn north_west_arrow() -> (r: Rel)
    ensures
        r == Rel('↖'),
{
    Rel('↖')
}

pub fn north_east_arrow() -> (r: Rel)
    ensures
        r == Rel('↗'),
{
    Rel('↗')
}

pub fn south_east_arrow() -> (r: Rel)
    ensures
        r == Rel('↘'),
{
    Rel('↘')
}

pub fn south_west_arrow() -> (r: Rel)
    ensures
        r == Rel('↙'),
{
    Rel('↙')
}

pub fn leftwards_arrow_with_stroke() -> (r: Rel)
    ensures
        r == Rel('↚'),
{
    Rel('↚')
}

pub fn rightwards_arrow_with_stroke() -> (r: Rel)
    ensures
        r == Rel('↛'),
{
    Rel('↛')
}

pub fn leftwards_arrow_with_tail() -> (r: Rel)
    ensures
        r == Rel('↢'),
{
    Rel('↢')
}

pub fn rightwards_arrow_with_tail() -> (r: Rel)
    ensures
        r == Rel('↣'),
{
    Rel('↣')
}

pub fn rightwards_arrow_from_bar() -> (r: Rel)
    ensures
        r == Rel('↦'),
{
    Rel('↦')
}

pub fn leftwards_arrow_with_hook() -> (r: Rel)
    ensures
        r == Rel('↩'),
{
    Rel('↩')
}

pub fn rightwards_arrow_with_hook() -> (r: Rel)
    ensures
        r == Rel('↪'),
{
    Rel('↪')
}

pub fn leftwards_arrow_with_loop() -> (r: Rel)
    ensures
        r == Rel('↫'),
{
    Rel('↫')
}

pub fn rightwards_arrow_with_loop() -> (r: Rel)
    ensures
        r == Rel('↬'),
{
    Rel('↬')
}

pub fn left_right_wave_arrow() -> (r: Rel)
    ensures
        r == Rel('↭'),
{
    Rel('↭')
}

pub fn left_right_arrow_with_stroke() -> (r: Rel)
    ensures
        r == Rel('↮'),
{
    Rel('↮')
}

pub fn downwards_zigzag_arrow() -> (r: Rel)
    ensures
        r == Rel('↯'),
{
    Rel('↯')
}

pub fn upwards_arrow_with_tip_leftwards() -> (r: Rel)
    ensures
        r == Rel('↰'),
{
    Rel('↰')
}

pub fn upwards_arrow_with_tip_rightwards() -> (r: Rel)
    ensures
        r == Rel('↱'),
{
    Rel('↱')
}

pub fn anticlockwise_top_semicircle_arrow() -> (r: Rel)
    ensures
        r == Rel('↶'),
{
    Rel('↶')
}

pub fn clockwise_top_semicircle_arrow() -> (r: Rel)
    ensures
        r == Rel('↷'),
{
    Rel('↷')
}

pub fn anticlockwise_open_circle_arrow() -> (r: Rel)
    ensures
        r == Rel('↺'),
{
    Rel('↺')
}

pub fn clockwise_open_circle_arrow() -> (r: Rel)
    ensures
        r == Rel('↻'),
{
    Rel('↻')
}

pub fn leftwards_harpoon_with_barb_upwards() -> (r: Rel)
    ensures
        r == Rel('↼'),
{
    Rel('↼')
}

pub fn leftwards_harpoon_with_barb_downwards() -> (r: Rel)
    ensures
        r == Rel('↽'),
{
    Rel('↽')
}

pub fn upwards_harpoon_with_barb_rightwards() -> (r: Rel)
    ensures
        r == Rel('↾'),
{
    Rel('↾')
}

pub fn upwards_harpoon_with_barb_leftwards() -> (r: Rel)
    ensures
        r == Rel('↿'),
{
    Rel('↿')
}

pub fn rightwards_harpoon_with_barb_upwards() -> (r: Rel)
    ensures
        r == Rel('⇀'),
{
    Rel('⇀')
}

pub fn rightwards_harpoon_with_barb_downwards() -> (r: Rel)
    ensures
        r == Rel('⇁'),
{
    Rel('⇁')
}

pub fn downwards_harpoon_with_barb_rightwards() -> (r: Rel)
    ensures
        r == Rel('⇂'),
{
    Rel('⇂')
}

pub fn downwards_harpoon_with_barb_leftwards() -> (r: Rel)
    ensures
        r == Rel('⇃'),
{
    Rel('⇃')
}

pub fn rightwards_arrow_over_leftwards_arrow() -> (r: Rel)
    ensures
        r == Rel('⇄'),
{
    Rel('⇄')
}

pub fn leftwards_arrow_over_rightwards_arrow() -> (r: Rel)
    ensures
        r == Rel('⇆'),
{
    Rel('⇆')
}

pub fn leftwards_paired_arrows() -> (r: Rel)
    ensures
        r == Rel('⇇'),
{
    Rel('⇇')
}

pub fn upwards_paired_arrows() -> (r: Rel)
    ensures
        r == Rel('⇈'),
{
    Rel('⇈')
}

pub fn rightwards_paired_arrows() -> (r: Rel)
    ensures
        r == Rel('⇉'),
{
    Rel('⇉')
}

pub fn downwards_paired_arrows() -> (r: Rel)
    ensures
        r == Rel('⇊'),
{
    Rel('⇊')
}

pub fn leftwards_harpoon_over_rightwards_harpoon() -> (r: Rel)
    ensures
        r == Rel('⇋'),
{
    Rel('⇋')
}

pub fn rightwards_harpoon_over_leftwards_harpoon() -> (r: Rel)
    ensures
        r == Rel('⇌'),
{
    Rel('⇌')
}

pub fn leftwards_double_arrow_with_stroke() -> (r: Rel)
    ensures
        r == Rel('⇍'),
{
    Rel('⇍')
}

pub fn left_right_double_arrow_with_stroke() -> (r: Rel)
    ensures
        r == Rel('⇎'),
{
    Rel('⇎')
}

pub fn rightwards_double_arrow_with_stroke() -> (r: Rel)
    ensures
        r == Rel('⇏'),
{
    Rel('⇏')
}

pub fn leftwards_double_arrow() -> (r: Rel)
    ensures
        r == Rel('⇐'),
{
    Rel('⇐')
}

pub fn upwards_double_arrow() -> (r: ParenOp)
    ensures
        r == ParenOp('⇑', false, Stretchy::Inconsistent),
{
    ParenOp('⇑', false, Stretchy::Inconsistent)
}

pub fn rightwards_double_arrow() -> (r: Rel)
    ensures
        r == Rel('⇒'),
{
    Rel('⇒')
}

pub fn downwards_double_arrow() -> (r: ParenOp)
    ensures
        r == ParenOp('⇓', false, Stretchy::Inconsistent),
{
    ParenOp('⇓', false, Stretchy::Inconsistent)
}

pub fn left_right_double_arrow() -> (r: Rel)
    ensures
        r == Rel('⇔'),
{
    Rel('⇔')
}

pub fn up_down_double_arrow() -> (r: ParenOp)
    ensures
        r == ParenOp('⇕', false, Stretchy::Inconsistent),
{
    ParenOp('⇕', false, Stretchy::Inconsistent)
}

pub fn leftwards_triple_arrow() -> (r: Rel)
    ensures
        r == Rel('⇚'),
{
    Rel('⇚')
}

pub fn rightwards_triple_arrow() -> (r: Rel)
    ensures
        r == Rel('⇛'),
{
    Rel('⇛')
}

pub fn rightwards_squiggle_arrow() -> (r: Rel)
    ensures
        r == Rel('⇝'),
{
    Rel('⇝')
}

//
// Unicode Block: Mathematical Operators
//

pub fn for_all() -> (r: Rel)
    ensures
        r == Rel('∀'),
{
    Rel('∀')
}

// Not treated as an operator.
pub const COMPLEMENT: char = '∁';

// Not treated as an operator.
pub const PARTIAL_DIFFERENTIAL: char = '∂';

pub fn there_exists() -> (r: Rel)
    ensures
        r == Rel('∃'),
{
    Rel('∃')
}

pub fn there_does_not_exist() -> (r: Rel)
    ensures
        r == Rel('∄'),
{
    Rel('∄')
}

pub const EMPTY_SET: char = '∅';

// Not treated as an operator.
pub const NABLA: char = '∇';

pub fn element_of() -> (r: Rel)
    ensures
        r == Rel('∈'),
{
    Rel('∈')
}

pub fn not_an_element_of() -> (r: Rel)
    ensures
        r == Rel('∉'),
{
    Rel('∉')
}

pub fn contains_as_member() -> (r: Rel)
    ensures
        r == Rel('∋'),
{
    Rel('∋')
}

pub fn small_contains_as_member() -> (r: Rel)
    ensures
        r == Rel('∍'),
{
    Rel('∍')
}

pub fn n_ary_product() -> (r: Big)
    ensures
        r == Big('∏'),
{
    Big('∏')
}

pub fn n_ary_coproduct() -> (r: Big)
    ensures
        r == Big('∐'),
{
    Big('∐')
}

pub fn n_ary_summation() -> (r: Big)
    ensures
        r == Big('∑'),
{
    Big('∑')
}

pub fn minus_sign() -> (r: Bin)
    ensures
        r == Bin('−'),
{
    Bin('−')
}

pub fn minus_or_plus_sign() -> (r: Bin)
    ensures
        r == Bin('∓'),
{
    Bin('∓')
}

pub fn dot_plus() -> (r: Bin)
    ensures
        r == Bin('∔'),
{
    Bin('∔')
}

pub fn set_minus() -> (r: Rel)
    ensures
        r == Rel('∖'),
{
    Rel('∖')
}

pub fn asterisk_operator() -> (r: Rel)
    ensures
        r == Rel('∗'),
{
    Rel('∗')
}

pub fn ring_operator() -> (r: Rel)
    ensures
        r == Rel('∘'),
{
    Rel('∘')
}

pub fn bullet_operator() -> (r: Rel)
    ensures
        r == Rel('∙'),
{
    Rel('∙')
}

pub fn proportional_to() -> (r: Rel)
    ensures
        r == Rel('∝'),
{
    Rel('∝')
}

pub const INFINITY: char = '∞';

pub const ANGLE: char = '∠';

pub const MEASURED_ANGLE: char = '∡';

pub const SPHERICAL_ANGLE: char = '∢';

pub fn divides() -> (r: Rel)
    ensures
        r == Rel('∣'),
{
    Rel('∣')
}

pub fn does_not_divide() -> (r: Rel)
    ensures
        r == Rel('∤'),
{
    Rel('∤')
}

pub fn parallel_to() -> (r: Rel)
    ensures
        r == Rel('∥'),
{
    Rel('∥')
}

pub fn not_parallel_to() -> (r: Rel)
    ensures
        r == Rel('∦'),
{
    Rel('∦')
}

pub fn logical_and() -> (r: Rel)
    ensures
        r == Rel('∧'),
{
    Rel('∧')
}

pub fn logical_or() -> (r: Rel)
    ensures
        r == Rel('∨'),
{
    Rel('∨')
}

pub fn intersection() -> (r: Rel)
    ensures
        r == Rel('∩'),
{
    Rel('∩')
}

pub fn union() -> (r: Rel)
    ensures
        r == Rel('∪'),
{
    Rel('∪')
}

pub fn integral() -> (r: Big)
    ensures
        r == Big('∫'),
{
    Big('∫')
}

pub fn double_integral() -> (r: Big)
    ensures
        r == Big('∬'),
{
    Big('∬')
}

pub fn triple_integral() -> (r: Big)
    ensures
        r == Big('∭'),
{
    Big('∭')
}

pub fn contour_integral() -> (r: Big)
    ensures
        r == Big('∮'),
{
    Big('∮')
}

pub fn surface_integral() -> (r: Big)
    ensures
        r == Big('∯'),
{
    Big('∯')
}

pub fn volume_integral() -> (r: Big)
    ensures
        r == Big('∰'),
{
    Big('∰')
}

pub fn clockwise_integral() -> (r: Big)
    ensures
        r == Big('∱'),
{
    Big('∱')
}

pub fn clockwise_contour_integral() -> (r: Big)
    ensures
        r == Big('∲'),
{
    Big('∲')
}

pub fn anticlockwise_contour_integral() -> (r: Big)
    ensures
        r == Big('∳'),
{
    Big('∳')
}

pub fn therefore() -> (r: Rel)
    ensures
        r == Rel('∴'),
{
    Rel('∴')
}

pub fn because() -> (r: Rel)
    ensures
        r == Rel('∵'),
{
    Rel('∵')
}

pub fn proportion() -> (r: Rel)
    ensures
        r == Rel('∷'),
{
    Rel('∷')
}

pub fn excess() -> (r: Rel)
    ensures
        r == Rel('∹'),
{
    Rel('∹')
}

pub fn geometric_proportion() -> (r: Rel)
    ensures
        r == Rel('∺'),
{
    Rel('∺')
}

pub fn homothetic() -> (r: Rel)
    ensures
        r == Rel('∻'),
{
    Rel('∻')
}

pub fn tilde_operator() -> (r: Rel)
    ensures
        r == Rel('∼'),
{
    Rel('∼')
}

pub fn reversed_tilde() -> (r: Rel)
    ensures
        r == Rel('∽'),
{
    Rel('∽')
}

pub fn wreath_product() -> (r: Rel)
    ensures
        r == Rel('≀'),
{
    Rel('≀')
}

pub fn not_tilde() -> (r: Rel)
    ensures
        r == Rel('≁'),
{
    Rel('≁')
}

pub fn minus_tilde() -> (r: Rel)
    ensures
        r == Rel('≂'),
{
    Rel('≂')
}

pub fn asymptotically_equal_to() -> (r: Rel)
    ensures
        r == Rel('≃'),
{
    Rel('≃')
}

pub fn not_asymptotically_equal_to() -> (r: Rel)
    ensures
        r == Rel('≄'),
{
    Rel('≄')
}

pub fn approximately_equal_to() -> (r: Rel)
    ensures
        r == Rel('≅'),
{
    Rel('≅')
}

pub fn almost_equal_to() -> (r: Rel)
    ensures
        r == Rel('≈'),
{
    Rel('≈')
}

pub fn not_almost_equal_to() -> (r: Rel)
    ensures
        r == Rel('≉'),
{
    Rel('≉')
}

pub fn almost_equal_or_equal_to() -> (r: Rel)
    ensures
        r == Rel('≊'),
{
    Rel('≊')
}

pub fn equivalent_to() -> (r: Rel)
    ensures
        r == Rel('≍'),
{
    Rel('≍')
}

pub fn geometrically_equivalent_to() -> (r: Rel)
    ensures
        r == Rel('≎'),
{
    Rel('≎')
}

pub fn difference_between() -> (r: Rel)
    ensures
        r == Rel('≏'),
{
    Rel('≏')
}

pub fn approaches_the_limit() -> (r: Rel)
    ensures
        r == Rel('≐'),
{
    Rel('≐')
}

pub fn geometrically_equal_to() -> (r: Rel)
    ensures
        r == Rel('≑'),
{
    Rel('≑')
}

pub fn approximately_equal_to_or_the_image_of() -> (r: Rel)
    ensures
        r == Rel('≒'),
{
    Rel('≒')
}

pub fn image_of_or_approximately_equal_to() -> (r: Rel)
    ensures
        r == Rel('≓'),
{
    Rel('≓')
}

pub fn colon_equals() -> (r: Rel)
    ensures
        r == Rel('≔'),
{
    Rel('≔')
}

pub fn equals_colon() -> (r: Rel)
    ensures
        r == Rel('≕'),
{
    Rel('≕')
}

pub fn ring_in_equal_to() -> (r: Rel)
    ensures
        r == Rel('≖'),
{
    Rel('≖')
}

pub fn ring_equal_to() -> (r: Rel)
    ensures
        r == Rel('≗'),
{
    Rel('≗')
}

pub fn corresponds_to() -> (r: Rel)
    ensures
        r == Rel('≘'),
{
    Rel('≘')
}

pub fn estimates() -> (r: Rel)
    ensures
        r == Rel('≙'),
{
    Rel('≙')
}

pub fn equiangular_to() -> (r: Rel)
    ensures
        r == Rel('≚'),
{
    Rel('≚')
}

pub fn star_equals() -> (r: Rel)
    ensures
        r == Rel('≛'),
{
    Rel('≛')
}

pub fn delta_equal_to() -> (r: Rel)
    ensures
        r == Rel('≜'),
{
    Rel('≜')
}

pub fn equal_to_by_definition() -> (r: Rel)
    ensures
        r == Rel('≝'),
{
    Rel('≝')
}

pub fn measured_by() -> (r: Rel)
    ensures
        r == Rel('≞'),
{
    Rel('≞')
}

pub fn questioned_equal_to() -> (r: Rel)
    ensures
        r == Rel('≟'),
{
    Rel('≟')
}

pub fn not_equal_to() -> (r: Rel)
    ensures
        r == Rel('≠'),
{
    Rel('≠')
}

pub fn identical_to() -> (r: Rel)
    ensures
        r == Rel('≡'),
{
    Rel('≡')
}

pub fn not_identical_to() -> (r: Rel)
    ensures
        r == Rel('≢'),
{
    Rel('≢')
}

pub fn less_than_or_equal_to() -> (r: Rel)
    ensures
        r == Rel('≤'),
{
    Rel('≤')
}

pub fn greater_than_or_equal_to() -> (r: Rel)
    ensures
        r == Rel('≥'),
{
    Rel('≥')
}

pub fn less_than_over_equal_to() -> (r: Rel)
    ensures
        r == Rel('≦'),
{
    Rel('≦')
}

pub fn greater_than_over_equal_to() -> (r: Rel)
    ensures
        r == Rel('≧'),
{
    Rel('≧')
}

pub fn less_than_but_not_equal_to() -> (r: Rel)
    ensures
        r == Rel('≨'),
{
    Rel('≨')
}

pub fn greater_than_but_not_equal_to() -> (r: Rel)
    ensures
        r == Rel('≩'),
{
    Rel('≩')
}

pub fn much_less_than() -> (r: Rel)
    ensures
        r == Rel('≪'),
{
    Rel('≪')
}

pub fn much_greater_than() -> (r: Rel)
    ensures
        r == Rel('≫'),
{
    Rel('≫')
}

pub fn between() -> (r: Rel)
    ensures
        r == Rel('≬'),
{
    Rel('≬')
}

pub fn not_less_than() -> (r: Rel)
    ensures
        r == Rel('≮'),
{
    Rel('≮')
}

pub fn not_greater_than() -> (r: Rel)
    ensures
        r == Rel('≯'),
{
    Rel('≯')
}

pub fn neither_less_than_nor_equal_to() -> (r: Rel)
    ensures
        r == Rel('≰'),
{
    Rel('≰')
}

pub fn neither_greater_than_nor_equal_to() -> (r: Rel)
    ensures
        r == Rel('≱'),
{
    Rel('≱')
}

pub fn less_than_or_equivalent_to() -> (r: Rel)
    ensures
        r == Rel('≲'),
{
    Rel('≲')
}

pub fn greater_than_or_equivalent_to() -> (r: Rel)
    ensures
        r == Rel('≳'),
{
    Rel('≳')
}

pub fn neither_less_than_nor_equivalent_to() -> (r: Rel)
    ensures
        r == Rel('≴'),
{
    Rel('≴')
}

pub fn neither_greater_than_nor_equivalent_to() -> (r: Rel)
    ensures
        r == Rel('≵'),
{
    Rel('≵')
}

pub fn less_than_or_greater_than() -> (r: Rel)
    ensures
        r == Rel('≶'),
{
    Rel('≶')
}

pub fn greater_than_or_less_than() -> (r: Rel)
    ensures
        r == Rel('≷'),
{
    Rel('≷')
}

pub fn neither_less_than_nor_greater_than() -> (r: Rel)
    ensures
        r == Rel('≸'),
{
    Rel('≸')
}

pub fn neither_greater_than_nor_less_than() -> (r: Rel)
    ensures
        r == Rel('≹'),
{
    Rel('≹')
}

pub fn precedes() -> (r: Rel)
    ensures
        r == Rel('≺'),
{
    Rel('≺')
}

pub fn succeeds() -> (r: Rel)
    ensures
        r == Rel('≻'),
{
    Rel('≻')
}

pub fn precedes_or_equal_to() -> (r: Rel)
    ensures
        r == Rel('≼'),
{
    Rel('≼')
}

pub fn succeeds_or_equal_to() -> (r: Rel)
    ensures
        r == Rel('≽'),
{
    Rel('≽')
}

pub fn precedes_or_equivalent_to() -> (r: Rel)
    ensures
        r == Rel('≾'),
{
    Rel('≾')
}

pub fn succeeds_or_equivalent_to() -> (r: Rel)
    ensures
        r == Rel('≿'),
{
    Rel('≿')
}

pub fn does_not_precede() -> (r: Rel)
    ensures
        r == Rel('⊀'),
{
    Rel('⊀')
}

pub fn does_not_succeed() -> (r: Rel)
    ensures
        r == Rel('⊁'),
{
    Rel('⊁')
}

pub fn subset_of() -> (r: Rel)
    ensures
        r == Rel('⊂'),
{
    Rel('⊂')
}

pub fn superset_of() -> (r: Rel)
    ensures
        r == Rel('⊃'),
{
    Rel('⊃')
}

pub fn not_a_subset_of() -> (r: Rel)
    ensures
        r == Rel('⊄'),
{
    Rel('⊄')
}

pub fn not_a_superset_of() -> (r: Rel)
    ensures
        r == Rel('⊅'),
{
    Rel('⊅')
}

pub fn subset_of_or_equal_to() -> (r: Rel)
    ensures
        r == Rel('⊆'),
{
    Rel('⊆')
}

pub fn superset_of_or_equal_to() -> (r: Rel)
    ensures
        r == Rel('⊇'),
{
    Rel('⊇')
}

pub fn neither_a_subset_of_nor_equal_to() -> (r: Rel)
    ensures
        r == Rel('⊈'),
{
    Rel('⊈')
}

pub fn neither_a_superset_of_nor_equal_to() -> (r: Rel)
    ensures
        r == Rel('⊉'),
{
    Rel('⊉')
}

pub fn subset_of_with_not_equal_to() -> (r: Rel)
    ensures
        r == Rel('⊊'),
{
    Rel('⊊')
}

pub fn superset_of_with_not_equal_to() -> (r: Rel)
    ensures
        r == Rel('⊋'),
{
    Rel('⊋')
}

pub fn multiset_union() -> (r: Rel)
    ensures
        r == Rel('⊎'),
{
    Rel('⊎')
}

pub fn square_image_of() -> (r: Rel)
    ensures
        r == Rel('⊏'),
{
    Rel('⊏')
}

pub fn square_original_of() -> (r: Rel)
    ensures
        r == Rel('⊐'),
{
    Rel('⊐')
}

pub fn square_image_of_or_equal_to() -> (r: Rel)
    ensures
        r == Rel('⊑'),
{
    Rel('⊑')
}

pub fn square_original_of_or_equal_to() -> (r: Rel)
    ensures
        r == Rel('⊒'),
{
    Rel('⊒')
}

pub fn square_cap() -> (r: Rel)
    ensures
        r == Rel('⊓'),
{
    Rel('⊓')
}

pub fn square_cup() -> (r: Rel)
    ensures
        r == Rel('⊔'),
{
    Rel('⊔')
}

pub fn circled_plus() -> (r: Rel)
    ensures
        r == Rel('⊕'),
{
    Rel('⊕')
}

pub fn circled_minus() -> (r: Rel)
    ensures
        r == Rel('⊖'),
{
    Rel('⊖')
}

pub fn circled_times() -> (r: Rel)
    ensures
        r == Rel('⊗'),
{
    Rel('⊗')
}

pub fn circled_division_slash() -> (r: Rel)
    ensures
        r == Rel('⊘'),
{
    Rel('⊘')
}

pub fn circled_dot_operator() -> (r: Rel)
    ensures
        r == Rel('⊙'),
{
    Rel('⊙')
}

pub fn circled_ring_operator() -> (r: Rel)
    ensures
        r == Rel('⊚'),
{
    Rel('⊚')
}

pub fn circled_asterisk_operator() -> (r: Rel)
    ensures
        r == Rel('⊛'),
{
    Rel('⊛')
}

pub fn circled_dash() -> (r: Rel)
    ensures
        r == Rel('⊝'),
{
    Rel('⊝')
}

pub fn squared_plus() -> (r: Rel)
    ensures
        r == Rel('⊞'),
{
    Rel('⊞')
}

pub fn squared_minus() -> (r: Rel)
    ensures
        r == Rel('⊟'),
{
    Rel('⊟')
}

pub fn squared_times() -> (r: Rel)
    ensures
        r == Rel('⊠'),
{
    Rel('⊠')
}

pub fn squared_dot_operator() -> (r: Rel)
    ensures
        r == Rel('⊡'),
{
    Rel('⊡')
}

pub fn right_tack() -> (r: Rel)
    ensures
        r == Rel('⊢'),
{
    Rel('⊢')
}

pub fn left_tack() -> (r: Rel)
    ensures
        r == Rel('⊣'),
{
    Rel('⊣')
}

pub const DOWN_TACK: char = '⊤';

pub const UP_TACK: char = '⊥';

pub fn true_sign() -> (r: Rel)
    ensures
        r == Rel('⊨'),
{
    Rel('⊨')
}

pub fn forces() -> (r: Rel)
    ensures
        r == Rel('⊩'),
{
    Rel('⊩')
}

pub fn triple_vertical_bar_right_turnstile() -> (r: Rel)
    ensures
        r == Rel('⊪'),
{
    Rel('⊪')
}

pub fn double_vertical_bar_double_right_turnstile() -> (r: Rel)
    ensures
        r == Rel('⊫'),
{
    Rel('⊫')
}

pub fn does_not_prove() -> (r: Rel)
    ensures
        r == Rel('⊬'),
{
    Rel('⊬')
}

pub fn not_true() -> (r: Rel)
    ensures
        r == Rel('⊭'),
{
    Rel('⊭')
}

pub fn does_not_force() -> (r: Rel)
    ensures
        r == Rel('⊮'),
{
    Rel('⊮')
}

pub fn negated_double_vertical_bar_double_right_turnstile() -> (r: Rel)
    ensures
        r == Rel('⊯'),
{
    Rel('⊯')
}

pub fn normal_subgroup_of() -> (r: Rel)
    ensures
        r == Rel('⊲'),
{
    Rel('⊲')
}

pub fn contains_as_normal_subgroup() -> (r: Rel)
    ensures
        r == Rel('⊳'),
{
    Rel('⊳')
}

pub fn normal_subgroup_of_or_equal_to() -> (r: Rel)
    ensures
        r == Rel('⊴'),
{
    Rel('⊴')
}

pub fn contains_as_normal_subgroup_or_equal_to() -> (r: Rel)
    ensures
        r == Rel('⊵'),
{
    Rel('⊵')
}

pub fn multimap() -> (r: Rel)
    ensures
        r == Rel('⊸'),
{
    Rel('⊸')
}

pub fn intercalate() -> (r: Rel)
    ensures
        r == Rel('⊺'),
{
    Rel('⊺')
}

pub fn xor() -> (r: Rel)
    ensures
        r == Rel('⊻'),
{
    Rel('⊻')
}

pub fn nand() -> (r: Rel)
    ensures
        r == Rel('⊼'),
{
    Rel('⊼')
}

pub fn n_ary_logical_and() -> (r: Big)
    ensures
        r == Big('⋀'),
{
    Big('⋀')
}

pub fn n_ary_logical_or() -> (r: Big)
    ensures
        r == Big('⋁'),
{
    Big('⋁')
}

pub fn n_ary_intersection() -> (r: Big)
    ensures
        r == Big('⋂'),
{
    Big('⋂')
}

pub fn n_ary_union() -> (r: Big)
    ensures
        r == Big('⋃'),
{
    Big('⋃')
}

pub fn diamond_operator() -> (r: Rel)
    ensures
        r == Rel('⋄'),
{
    Rel('⋄')
}

pub fn star_operator() -> (r: Rel)
    ensures
        r == Rel('⋆'),
{
    Rel('⋆')
}

pub fn division_times() -> (r: Rel)
    ensures
        r == Rel('⋇'),
{
    Rel('⋇')
}

pub fn bowtie() -> (r: Rel)
    ensures
        r == Rel('⋈'),
{
    Rel('⋈')
}

pub fn left_normal_factor_semidirect_product() -> (r: Rel)
    ensures
        r == Rel('⋉'),
{
    Rel('⋉')
}

pub fn right_normal_factor_semidirect_product() -> (r: Rel)
    ensures
        r == Rel('⋊'),
{
    Rel('⋊')
}

pub fn left_semidirect_product() -> (r: Rel)
    ensures
        r == Rel('⋋'),
{
    Rel('⋋')
}

pub fn right_semidirect_product() -> (r: Rel)
    ensures
        r == Rel('⋌'),
{
    Rel('⋌')
}

pub fn reversed_tilde_equals() -> (r: Rel)
    ensures
        r == Rel('⋍'),
{
    Rel('⋍')
}

pub fn curly_logical_or() -> (r: Rel)
    ensures
        r == Rel('⋎'),
{
    Rel('⋎')
}

pub fn curly_logical_and() -> (r: Rel)
    ensures
        r == Rel('⋏'),
{
    Rel('⋏')
}

pub fn double_subset() -> (r: Rel)
    ensures
        r == Rel('⋐'),
{
    Rel('⋐')
}

pub fn double_superset() -> (r: Rel)
    ensures
        r == Rel('⋑'),
{
    Rel('⋑')
}

pub fn double_intersection() -> (r: Rel)
    ensures
        r == Rel('⋒'),
{
    Rel('⋒')
}

pub fn double_union() -> (r: Rel)
    ensures
        r == Rel('⋓'),
{
    Rel('⋓')
}

pub fn pitchfork() -> (r: Rel)
    ensures
        r == Rel('⋔'),
{
    Rel('⋔')
}

pub fn less_than_with_dot() -> (r: Rel)
    ensures
        r == Rel('⋖'),
{
    Rel('⋖')
}

pub fn very_much_less_than() -> (r: Rel)
    ensures
        r == Rel('⋘'),
{
    Rel('⋘')
}

pub fn less_than_equal_to_or_greater_than() -> (r: Rel)
    ensures
        r == Rel('⋚'),
{
    Rel('⋚')
}

pub fn equal_to_or_precedes() -> (r: Rel)
    ensures
        r == Rel('⋞'),
{
    Rel('⋞')
}

pub fn equal_to_or_succeeds() -> (r: Rel)
    ensures
        r == Rel('⋟'),
{
    Rel('⋟')
}

pub fn does_not_precede_or_equal() -> (r: Rel)
    ensures
        r == Rel('⋠'),
{
    Rel('⋠')
}

pub fn does_not_succeed_or_equal() -> (r: Rel)
    ensures
        r == Rel('⋡'),
{
    Rel('⋡')
}

pub fn precedes_but_not_equivalent_to() -> (r: Rel)
    ensures
        r == Rel('⋨'),
{
    Rel('⋨')
}

pub fn succeeds_but_not_equivalent_to() -> (r: Rel)
    ensures
        r == Rel('⋩'),
{
    Rel('⋩')
}

pub fn vertical_ellipsis() -> (r: Rel)
    ensures
        r == Rel('⋮'),
{
    Rel('⋮')
}

pub fn down_right_diagonal_ellipsis() -> (r: Rel)
    ensures
        r == Rel('⋱'),
{
    Rel('⋱')
}

//
// Unicode Block: Miscellaneous Technical
//

pub fn left_ceiling() -> (r: ParenOp)
    ensures
        r == ParenOp('⌈', false, Stretchy::Always),
{
    ParenOp('⌈', false, Stretchy::Always)
}

pub fn right_ceiling() -> (r: ParenOp)
    ensures
        r == ParenOp('⌉', false, Stretchy::Always),
{
    ParenOp('⌉', false, Stretchy::Always)
}

pub fn left_floor() -> (r: ParenOp)
    ensures
        r == ParenOp('⌊', false, Stretchy::Always),
{
    ParenOp('⌊', false, Stretchy::Always)
}

pub fn right_floor() -> (r: ParenOp)
    ensures
        r == ParenOp('⌋', false, Stretchy::Always),
{
    ParenOp('⌋', false, Stretchy::Always)
}

pub const TOP_LEFT_CORNER: char = '⌜';

pub const TOP_RIGHT_CORNER: char = '⌝';

pub const BOTTOM_LEFT_CORNER: char = '⌞';

pub const BOTTOM_RIGHT_CORNER: char = '⌟';

pub fn frown() -> (r: Rel)
    ensures
        r == Rel('⌢'),
{
    Rel('⌢')
}

pub fn smile() -> (r: Rel)
    ensures
        r == Rel('⌣'),
{
    Rel('⌣')
}

pub fn top_square_bracket() -> (r: Op)
    ensures
        r == Op('⎴'),
{
    Op('⎴')
}

pub fn bottom_square_bracket() -> (r: Op)
    ensures
        r == Op('⎵'),
{
    Op('⎵')
}

pub fn top_parenthesis() -> (r: Op)
    ensures
        r == Op('⏜'),
{
    Op('⏜')
}

pub fn bottom_parenthesis() -> (r: Op)
    ensures
        r == Op('⏝'),
{
    Op('⏝')
}

pub fn top_curly_bracket() -> (r: Op)
    ensures
        r == Op('⏞'),
{
    Op('⏞')
}

pub fn bottom_curly_bracket() -> (r: Op)
    ensures
        r == Op('⏟'),
{
    Op('⏟')
}

//
// Unicode Block: Enclosed Alphanumerics
//

// Not treated as an operator.
pub const CIRCLED_LATIN_CAPITAL_LETTER_R: char = 'Ⓡ';

// Not treated as an operator.
pub const CIRCLED_LATIN_CAPITAL_LETTER_S: char = 'Ⓢ';

//
// Unicode Block: Geometric Shapes
//

pub const BLACK_SQUARE: char = '■';

pub const BLACK_UP_POINTING_TRIANGLE: char = '▲';

pub const BLACK_RIGHT_POINTING_TRIANGLE: char = '▶';

pub const BLACK_DOWN_POINTING_TRIANGLE: char = '▼';

pub const BLACK_LEFT_POINTING_TRIANGLE: char = '◀';

pub const WHITE_UP_POINTING_TRIANGLE: char = '△';

pub const WHITE_RIGHT_POINTING_TRIANGLE: char = '▷';

pub const WHITE_DOWN_POINTING_TRIANGLE: char = '▽';

pub const WHITE_LEFT_POINTING_TRIANGLE: char = '◁';

pub const LARGE_CIRCLE: char = '◯';

//
// Unicode Block: Miscellaneous Symbols
//

pub const BLACK_STAR: char = '★';

//
// Unicode Block: Miscellaneous Mathematical Symbols-A
//

pub fn perpendicular() -> (r: Rel)
    ensures
        r == Rel('⟂'),
{
    Rel('⟂')
}

pub fn mathematical_left_white_square_bracket() -> (r: ParenOp)
    ensures
        r == ParenOp('⟦', false, Stretchy::Always),
{
    ParenOp('⟦', false, Stretchy::Always)
}

pub fn mathematical_right_white_square_bracket() -> (r: ParenOp)
    ensures
        r == ParenOp('⟧', false, Stretchy::Always),
{
    ParenOp('⟧', false, Stretchy::Always)
}

pub fn mathematical_left_angle_bracket() -> (r: ParenOp)
    ensures
        r == ParenOp('⟨', false, Stretchy::Always),
{
    ParenOp('⟨', false, Stretchy::Always)
}

pub fn mathematical_right_angle_bracket() -> (r: ParenOp)
    ensures
        r == ParenOp('⟩', false, Stretchy::Always),
{
    ParenOp('⟩', false, Stretchy::Always)
}

pub fn mathematical_left_flattened_parenthesis() -> (r: ParenOp)
    ensures
        r == ParenOp('⟮', false, Stretchy::Always),
{
    ParenOp('⟮', false, Stretchy::Always)
}

pub fn mathematical_right_flattened_parenthesis() -> (r: ParenOp)
    ensures
        r == ParenOp('⟯', false, Stretchy::Always),
{
    ParenOp('⟯', false, Stretchy::Always)
}

//
// Unicode Block: Supplemental Arrows-A
//

pub fn long_leftwards_arrow() -> (r: Rel)
    ensures
        r == Rel('⟵'),
{
    Rel('⟵')
}

pub fn long_rightwards_arrow() -> (r: Rel)
    ensures
        r == Rel('⟶'),
{
    Rel('⟶')
}

pub fn long_left_right_arrow() -> (r: Rel)
    ensures
        r == Rel('⟷'),
{
    Rel('⟷')
}

pub fn long_leftwards_double_arrow() -> (r: Rel)
    ensures
        r == Rel('⟸'),
{
    Rel('⟸')
}

pub fn long_rightwards_double_arrow() -> (r: Rel)
    ensures
        r == Rel('⟹'),
{
    Rel('⟹')
}

pub fn long_left_right_double_arrow() -> (r: Rel)
    ensures
        r == Rel('⟺'),
{
    Rel('⟺')
}

pub fn long_rightwards_arrow_from_bar() -> (r: Rel)
    ensures
        r == Rel('⟼'),
{
    Rel('⟼')
}

//
// Unicode Block: Supplemental Arrows-B
//

pub fn leftwards_arrow_tail() -> (r: Rel)
    ensures
        r == Rel('⤙'),
{
    Rel('⤙')
}

pub fn rightwards_arrow_tail() -> (r: Rel)
    ensures
        r == Rel('⤚'),
{
    Rel('⤚')
}

//
// Unicode Block: Miscellaneous Mathematical Symbols-B
//

pub fn left_white_curly_bracket() -> (r: ParenOp)
    ensures
        r == ParenOp('⦃', false, Stretchy::Always),
{
    ParenOp('⦃', false, Stretchy::Always)
}

pub fn right_white_curly_bracket() -> (r: ParenOp)
    ensures
        r == ParenOp('⦄', false, Stretchy::Always),
{
    ParenOp('⦄', false, Stretchy::Always)
}

pub fn z_notation_left_image_bracket() -> (r: ParenOp)
    ensures
        r == ParenOp('⦇', false, Stretchy::Always),
{
    ParenOp('⦇', false, Stretchy::Always)
}

pub fn z_notation_right_image_bracket() -> (r: ParenOp)
    ensures
        r == ParenOp('⦈', false, Stretchy::Always),
{
    ParenOp('⦈', false, Stretchy::Always)
}

pub fn z_notation_left_binding_bracket() -> (r: ParenOp)
    ensures
        r == ParenOp('⦉', false, Stretchy::Always),
{
    ParenOp('⦉', false, Stretchy::Always)
}

pub fn z_notation_right_binding_bracket() -> (r: ParenOp)
    ensures
        r == ParenOp('⦊', false, Stretchy::Always),
{
    ParenOp('⦊', false, Stretchy::Always)
}

pub fn squared_rising_diagonal_slash() -> (r: Rel)
    ensures
        r == Rel('⧄'),
{
    Rel('⧄')
}

pub fn squared_falling_diagonal_slash() -> (r: Rel)
    ensures
        r == Rel('⧅'),
{
    Rel('⧅')
}

pub fn squared_square() -> (r: Rel)
    ensures
        r == Rel('⧈'),
{
    Rel('⧈')
}

pub const BLACK_LOZENGE: char = '⧫';

//
// Unicode Block: Supplemental Mathematical Operators
//

pub fn n_ary_circled_dot_operator() -> (r: Big)
    ensures
        r == Big('⨀'),
{
    Big('⨀')
}

pub fn n_ary_circled_plus_operator() -> (r: Big)
    ensures
        r == Big('⨁'),
{
    Big('⨁')
}

pub fn n_ary_circled_times_operator() -> (r: Big)
    ensures
        r == Big('⨂'),
{
    Big('⨂')
}

pub fn n_ary_union_operator_with_dot() -> (r: Big)
    ensures
        r == Big('⨃'),
{
    Big('⨃')
}

pub fn n_ary_union_operator_with_plus() -> (r: Big)
    ensures
        r == Big('⨄'),
{
    Big('⨄')
}

pub fn n_ary_square_intersection_operator() -> (r: Big)
    ensures
        r == Big('⨅'),
{
    Big('⨅')
}

pub fn n_ary_square_union_operator() -> (r: Big)
    ensures
        r == Big('⨆'),
{
    Big('⨆')
}

pub fn two_logical_and_operator() -> (r: Big)
    ensures
        r == Big('⨇'),
{
    Big('⨇')
}

pub fn two_logical_or_operator() -> (r: Big)
    ensures
        r == Big('⨈'),
{
    Big('⨈')
}

pub fn n_ary_times_operator() -> (r: Big)
    ensures
        r == Big('⨉'),
{
    Big('⨉')
}

pub fn summation_with_integral() -> (r: Big)
    ensures
        r == Big('⨋'),
{
    Big('⨋')
}

pub fn quadruple_integral_operator() -> (r: Big)
    ensures
        r == Big('⨌'),
{
    Big('⨌')
}

pub fn finite_partl_integral() -> (r: Big)
    ensures
        r == Big('⨍'),
{
    Big('⨍')
}

pub fn integral_with_double_stroke() -> (r: Big)
    ensures
        r == Big('⨎'),
{
    Big('⨎')
}

pub fn integral_average_with_slash() -> (r: Big)
    ensures
        r == Big('⨏'),
{
    Big('⨏')
}

pub fn circulation_function() -> (r: Big)
    ensures
        r == Big('⨐'),
{
    Big('⨐')
}

pub fn anticlockwise_integration() -> (r: Big)
    ensures
        r == Big('⨑'),
{
    Big('⨑')
}

pub fn z_notation_schema_composition() -> (r: Rel)
    ensures
        r == Rel('⨟'),
{
    Rel('⨟')
}

pub fn amalgamation_or_coproduct() -> (r: Rel)
    ensures
        r == Rel('⨿'),
{
    Rel('⨿')
}

pub fn logical_and_with_double_overbar() -> (r: Rel)
    ensures
        r == Rel('⩞'),
{
    Rel('⩞')
}

pub fn equals_sign_with_dot_below() -> (r: Rel)
    ensures
        r == Rel('⩦'),
{
    Rel('⩦')
}

pub fn less_than_or_slanted_equal_to() -> (r: Rel)
    ensures
        r == Rel('⩽'),
{
    Rel('⩽')
}

pub fn greater_than_or_slanted_equal_to() -> (r: Rel)
    ensures
        r == Rel('⩾'),
{
    Rel('⩾')
}

pub fn less_than_or_approximate() -> (r: Rel)
    ensures
        r == Rel('⪅'),
{
    Rel('⪅')
}

pub fn greater_than_or_approximate() -> (r: Rel)
    ensures
        r == Rel('⪆'),
{
    Rel('⪆')
}

pub fn less_than_and_single_line_not_equal_to() -> (r: Rel)
    ensures
        r == Rel('⪇'),
{
    Rel('⪇')
}

pub fn greater_than_and_single_line_not_equal_to() -> (r: Rel)
    ensures
        r == Rel('⪈'),
{
    Rel('⪈')
}

pub fn less_than_above_double_line_equal_above_greater_than() -> (r: Rel)
    ensures
        r == Rel('⪋'),
{
    Rel('⪋')
}

pub fn slanted_equal_to_or_less_than() -> (r: Rel)
    ensures
        r == Rel('⪕'),
{
    Rel('⪕')
}

pub fn slanted_equal_to_or_greater_than() -> (r: Rel)
    ensures
        r == Rel('⪖'),
{
    Rel('⪖')
}

pub fn precedes_above_single_line_equals_sign() -> (r: Rel)
    ensures
        r == Rel('⪯'),
{
    Rel('⪯')
}

pub fn succeeds_above_single_line_equals_sign() -> (r: Rel)
    ensures
        r == Rel('⪰'),
{
    Rel('⪰')
}

pub fn precedes_above_not_equal_to() -> (r: Rel)
    ensures
        r == Rel('⪵'),
{
    Rel('⪵')
}

pub fn succeeds_above_not_equal_to() -> (r: Rel)
    ensures
        r == Rel('⪶'),
{
    Rel('⪶')
}

pub fn precedes_above_almost_equal_to() -> (r: Rel)
    ensures
        r == Rel('⪷'),
{
    Rel('⪷')
}

pub fn succeeds_above_almost_equal_to() -> (r: Rel)
    ensures
        r == Rel('⪸'),
{
    Rel('⪸')
}

pub fn precedes_above_not_almost_equal_to() -> (r: Rel)
    ensures
        r == Rel('⪹'),
{
    Rel('⪹')
}

pub fn succeeds_above_not_almost_equal_to() -> (r: Rel)
    ensures
        r == Rel('⪺'),
{
    Rel('⪺')
}

pub fn subset_of_above_not_equal_to() -> (r: Rel)
    ensures
        r == Rel('⫋'),
{
    Rel('⫋')
}

pub fn superset_of_above_not_equal_to() -> (r: Rel)
    ensures
        r == Rel('⫌'),
{
    Rel('⫌')
}

//
// Unicode Block: Small Form Variants
//

pub fn small_reverse_solidus() -> (r: Rel)
    ensures
        r == Rel('﹨'),
{
    Rel('﹨')
}

} // verus!
