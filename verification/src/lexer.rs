//! The scanner: a forward-only cursor over the input producing one token
//! per call, with a single character of look-ahead and zero backtracking.
//!
//! Tokens borrow slices of the original input; the scanner allocates
//! nothing. Malformed input either degenerates to a best-effort token or is
//! signalled by [`Lexer::read_text_content`] returning no value; reporting
//! is left to the calling grammar layer.

use vstd::prelude::*;
use vstd::string::StrSliceExecFns;
use crate::ops::Op;
use crate::token::Token;
use crate::commands::{get_command, known_command, command_token};

verus! {

/// An ASCII decimal digit.
pub open spec fn is_digit_char(c: char) -> bool {
    48 <= c as u32 <= 57
}

/// A separator character that may appear inside a number.
pub open spec fn is_sep_char(c: char) -> bool {
    c == '.' || c == ','
}

/// An ASCII whitespace character.
pub open spec fn is_ws_char(c: char) -> bool {
    c == ' ' || c == '\t' || c == '\n' || c == '\u{c}' || c == '\r'
}

/// An ASCII alphabetic character.
pub open spec fn is_alpha_char(c: char) -> bool {
    (65 <= c as u32 <= 90) || (97 <= c as u32 <= 122)
}

fn ch_is_digit(c: char) -> (r: bool)
    ensures
        r == is_digit_char(c),
{
    let u = c as u32;
    48 <= u && u <= 57
}

fn ch_is_sep(c: char) -> (r: bool)
    ensures
        r == is_sep_char(c),
{
    c == '.' || c == ','
}

fn ch_is_ws(c: char) -> (r: bool)
    ensures
        r == is_ws_char(c),
{
    c == ' ' || c == '\t' || c == '\n' || c == '\u{c}' || c == '\r'
}

fn ch_is_alpha(c: char) -> (r: bool)
    ensures
        r == is_alpha_char(c),
{
    let u = c as u32;
    (65 <= u && u <= 90) || (97 <= u && u <= 122)
}

/// The position of the first non-whitespace character at or after `i`.
pub open spec fn skip_ws_end(s: Seq<char>, i: int) -> int
    decreases s.len() - i,
{
    if i < s.len() && is_ws_char(s[i]) {
        skip_ws_end(s, i + 1)
    } else {
        i
    }
}

/// The end of the run of ASCII alphabetic characters starting at `i`.
pub open spec fn alpha_run_end(s: Seq<char>, i: int) -> int
    decreases s.len() - i,
{
    if i < s.len() && is_alpha_char(s[i]) {
        alpha_run_end(s, i + 1)
    } else {
        i
    }
}

/// The end of the number text whose first digit stands just before `i`:
/// scanning continues over digits, and over a separator only when the
/// character after the separator is again a digit. A separator not followed
/// by a digit is excluded from the number.
pub open spec fn number_end(s: Seq<char>, i: int) -> int
    decreases s.len() - i,
{
    if i < s.len() && (is_digit_char(s[i]) || (is_sep_char(s[i]) && i + 1 < s.len()
        && is_digit_char(s[i + 1]))) {
        number_end(s, i + 1)
    } else {
        i
    }
}

/// Scans raw text content from `i` at nesting depth `depth` and returns the
/// position of the closing brace that brings the depth back to zero.
/// Returns no value exactly when the end of input is reached before that
/// brace, or when a backslash is followed by any character other than `{`
/// or `}` (the only two supported escape sequences).
pub open spec fn text_end(s: Seq<char>, i: int, depth: int) -> Option<int>
    decreases s.len() - i,
{
    if i >= s.len() {
        None
    } else if s[i] == '}' {
        if depth <= 1 {
            Some(i)
        } else {
            text_end(s, i + 1, depth - 1)
        }
    } else if s[i] == '{' {
        text_end(s, i + 1, depth + 1)
    } else if s[i] == '\\' {
        if i + 2 <= s.len() && (s[i + 1] == '{' || s[i + 1] == '}') {
            text_end(s, i + 2, depth)
        } else {
            None
        }
    } else {
        text_end(s, i + 1, depth)
    }
}

/// The number-splitting law. Within the number text that starts just
/// before `i`, every character is a digit or a separator, and every
/// separator is immediately followed by another digit still inside the
/// text: a separator with no digit after it is never included, so the
/// number ends immediately before it.
pub proof fn lemma_number_split(s: Seq<char>, i: int)
    requires
        0 <= i <= s.len(),
    ensures
        forall|k: int|
            i <= k < number_end(s, i) ==> is_digit_char(s[k]) || is_sep_char(s[k]),
        forall|k: int|
            i <= k < number_end(s, i) && is_sep_char(s[k]) ==> k + 1 < s.len() && is_digit_char(
                s[k + 1],
            ),
        number_end(s, i) < s.len() ==> !is_digit_char(s[number_end(s, i)]),
        number_end(s, i) < s.len() && is_sep_char(s[number_end(s, i)]) ==> (number_end(s, i) + 1
            >= s.len() || !is_digit_char(s[number_end(s, i) + 1])),
    decreases s.len() - i,
{
    if i < s.len() && (is_digit_char(s[i]) || (is_sep_char(s[i]) && i + 1 < s.len()
        && is_digit_char(s[i + 1]))) {
        lemma_number_split(s, i + 1);
    }
}

proof fn lemma_skip_ws_end_bounds(s: Seq<char>, i: int)
    requires
        0 <= i <= s.len(),
    ensures
        i <= skip_ws_end(s, i) <= s.len(),
    decreases s.len() - i,
{
    if i < s.len() && is_ws_char(s[i]) {
        lemma_skip_ws_end_bounds(s, i + 1);
    }
}

proof fn lemma_alpha_run_end_bounds(s: Seq<char>, i: int)
    requires
        0 <= i <= s.len(),
    ensures
        i <= alpha_run_end(s, i) <= s.len(),
    decreases s.len() - i,
{
    if i < s.len() && is_alpha_char(s[i]) {
        lemma_alpha_run_end_bounds(s, i + 1);
    }
}

proof fn lemma_number_end_bounds(s: Seq<char>, i: int)
    requires
        0 <= i <= s.len(),
    ensures
        i <= number_end(s, i) <= s.len(),
    decreases s.len() - i,
{
    if i < s.len() && (is_digit_char(s[i]) || (is_sep_char(s[i]) && i + 1 < s.len()
        && is_digit_char(s[i + 1]))) {
        lemma_number_end_bounds(s, i + 1);
    }
}

/// The token that a single fixed punctuation or structural character
/// selects, if the character is one of the fixed set.
pub open spec fn simple_token(c: char) -> Option<Token<'static>> {
    if c == '=' {
        Some(Token::Operator(Op('=')))
    } else if c == ';' {
        Some(Token::Operator(Op(';')))
    } else if c == ',' {
        Some(Token::Operator(Op(',')))
    } else if c == '.' {
        Some(Token::Operator(Op('.')))
    } else if c == '\'' {
        Some(Token::Prime)
    } else if c == '(' {
        Some(Token::Paren(crate::ops::ParenOp('(', false, crate::attribute::Stretchy::Always)))
    } else if c == ')' {
        Some(Token::Paren(crate::ops::ParenOp(')', false, crate::attribute::Stretchy::Always)))
    } else if c == '{' {
        Some(Token::GroupBegin)
    } else if c == '}' {
        Some(Token::GroupEnd)
    } else if c == '[' {
        Some(Token::Paren(crate::ops::ParenOp('[', false, crate::attribute::Stretchy::Always)))
    } else if c == ']' {
        Some(Token::Paren(crate::ops::ParenOp(']', false, crate::attribute::Stretchy::Always)))
    } else if c == '|' {
        Some(Token::Paren(crate::ops::ParenOp('|', true, crate::attribute::Stretchy::PrePostfix)))
    } else if c == '+' {
        Some(Token::Operator(Op('+')))
    } else if c == '-' {
        Some(Token::Operator(Op('\u{2212}')))
    } else if c == '*' {
        Some(Token::Operator(Op('*')))
    } else if c == '/' {
        Some(Token::Operator(Op('/')))
    } else if c == '!' {
        Some(Token::Operator(Op('!')))
    } else if c == '<' {
        Some(Token::OpLessThan)
    } else if c == '>' {
        Some(Token::OpGreaterThan)
    } else if c == '_' {
        Some(Token::Underscore)
    } else if c == '^' {
        Some(Token::Circumflex)
    } else if c == '&' {
        Some(Token::Ampersand)
    } else if c == '~' {
        Some(Token::NonBreakingSpace)
    } else if c == ':' {
        Some(Token::Colon)
    } else if c == ' ' {
        Some(Token::Letter('\u{A0}'))
    } else if c == '\u{0}' {
        Some(Token::EOF)
    } else {
        None
    }
}

/// The cursor state of the scanner: the borrowed input and the current
/// position in it, counted in characters.
#[derive(Debug)]
pub struct Lexer<'source> {
    input: &'source str,
    pos: usize,
}

impl<'source> Lexer<'source> {
    /// The input being scanned.
    pub closed spec fn src(&self) -> Seq<char> {
        self.input@
    }

    /// The current cursor position, counted in characters from the start of
    /// the input.
    pub closed spec fn at(&self) -> int {
        self.pos as int
    }

    #[verifier::type_invariant]
    spec fn wf(&self) -> bool {
        self.pos as int <= self.input@.len()
    }

    /// Receive the input source code and generate a lexer instance over it.
    pub fn new(input: &'source str) -> (l: Lexer<'source>)
        ensures
            l.src() == input@,
            l.at() == 0,
    {
        Lexer { input, pos: 0 }
    }

    /// One character progresses: returns the position and character under
    /// the cursor and advances past it. At the end of the input, the cursor
    /// stays put and the end position with a NUL sentinel is returned.
    pub fn read_char(&mut self) -> (r: (usize, char))
        ensures
            final(self).src() == old(self).src(),
            old(self).at() < old(self).src().len() ==> {
                &&& r.0 == old(self).at()
                &&& r.1 == old(self).src()[old(self).at()]
                &&& final(self).at() == old(self).at() + 1
            },
            old(self).at() >= old(self).src().len() ==> {
                &&& r.0 == old(self).src().len()
                &&& r.1 == '\u{0}'
                &&& final(self).at() == old(self).at()
            },
    {
        proof {
            use_type_invariant(&*self);
        }
        let n = self.input.unicode_len();
        if self.pos < n {
            let c = self.input.get_char(self.pos);
            let i = self.pos;
            self.pos = self.pos + 1;
            (i, c)
        } else {
            (n, '\u{0}')
        }
    }

    /// Skip blank characters.
    pub fn skip_whitespace(&mut self)
        ensures
            final(self).src() == old(self).src(),
            final(self).at() == skip_ws_end(old(self).src(), old(self).at()),
    {
        proof {
            use_type_invariant(&*self);
        }
        let n = self.input.unicode_len();
        while self.pos < n && ch_is_ws(self.input.get_char(self.pos))
            invariant
                self.input == old(self).input,
                self.pos <= n,
                n == self.input@.len(),
                skip_ws_end(old(self).src(), old(self).at()) == skip_ws_end(
                    self.input@,
                    self.pos as int,
                ),
            decreases n - self.pos,
        {
            self.pos = self.pos + 1;
        }
    }

    /// Read one command name: the maximal run of ASCII alphabetic
    /// characters at the cursor, or, when that run is empty, exactly one
    /// arbitrary character, so that a command read always advances the
    /// cursor as long as input remains.
    pub fn read_command(&mut self) -> (cmd: &'source str)
        ensures
            final(self).src() == old(self).src(),
            ({
                let s = old(self).src();
                let i = old(self).at();
                let j = alpha_run_end(s, i);
                &&& (j > i ==> final(self).at() == j && cmd@ == s.subrange(i, j))
                &&& (j == i && i < s.len() ==> final(self).at() == i + 1 && cmd@ == s.subrange(
                    i,
                    i + 1,
                ))
                &&& (j == i && i >= s.len() ==> final(self).at() == i && cmd@ == Seq::<
                    char,
                >::empty())
            }),
            old(self).at() < old(self).src().len() ==> final(self).at() > old(self).at(),
    {
        proof {
            use_type_invariant(&*self);
            lemma_alpha_run_end_bounds(self.input@, self.pos as int);
        }
        let n = self.input.unicode_len();
        let start = self.pos;

        // Read in all ASCII alphabetic characters.
        while self.pos < n && ch_is_alpha(self.input.get_char(self.pos))
            invariant
                self.input == old(self).input,
                start <= self.pos <= n,
                n == self.input@.len(),
                alpha_run_end(self.input@, start as int) == alpha_run_end(
                    self.input@,
                    self.pos as int,
                ),
            decreases n - self.pos,
        {
            self.pos = self.pos + 1;
        }

        if start == self.pos && self.pos < n {
            // Always read at least one character.
            self.pos = self.pos + 1;
        }

        self.input.substring_char(start, self.pos)
    }

    /// Read one number: a maximal run of digits interleaved with
    /// separators, where a separator counts as part of the number only when
    /// the character after it is again a digit. A trailing separator is
    /// excluded from the returned text and handed back as the resolved
    /// trailing operator instead; the cursor has then advanced past it.
    #[verifier::loop_isolation(false)]
    pub fn read_number(&mut self) -> (r: (&'source str, Option<Op>))
        requires
            old(self).at() < old(self).src().len(),
            is_digit_char(old(self).src()[old(self).at()]),
        ensures
            final(self).src() == old(self).src(),
            ({
                let s = old(self).src();
                let i = old(self).at();
                let e = number_end(s, i + 1);
                &&& r.0@ == s.subrange(i, e)
                &&& (if e < s.len() && is_sep_char(s[e]) {
                    r.1 == Some(Op(s[e])) && final(self).at() == e + 1
                } else {
                    r.1 == None::<Op> && final(self).at() == e
                })
            }),
    {
        proof {
            use_type_invariant(&*self);
            lemma_number_end_bounds(self.input@, self.pos as int + 1);
        }
        let n = self.input.unicode_len();
        // We know that the first character is a digit.
        let start = self.pos;
        self.pos = self.pos + 1;

        loop
            invariant
                self.input == old(self).input,
                n == self.input@.len(),
                start < self.pos <= n,
                number_end(self.input@, start as int + 1) == number_end(
                    self.input@,
                    self.pos as int,
                ),
            decreases n - self.pos,
        {
            if self.pos >= n {
                break;
            }
            let cur = self.input.get_char(self.pos);
            if ch_is_digit(cur) {
                self.pos = self.pos + 1;
            } else if ch_is_sep(cur) {
                // Before we accept the separator, we need to check whether
                // the character after it is again a digit.
                if self.pos + 1 < n && ch_is_digit(self.input.get_char(self.pos + 1)) {
                    self.pos = self.pos + 1;
                } else {
                    // The separator is not part of the number: exclude it
                    // from the text, but return it as a resolved operator.
                    let number = self.input.substring_char(start, self.pos);
                    let op = Op(cur);
                    self.pos = self.pos + 1;
                    return (number, Some(op));
                }
            } else {
                break;
            }
        }
        let number = self.input.substring_char(start, self.pos);
        (number, None)
    }

    /// Read raw text until the closing brace matching the already-consumed
    /// opening brace, tracking nested brace depth. Exactly two escape
    /// sequences are supported, an escaped `{` and an escaped `}`; a
    /// backslash followed by anything else is a failure, as is reaching the
    /// end of the input while braces remain open. On success the returned
    /// text excludes the final matching brace, and the cursor stands just
    /// past that brace.
    #[verifier::loop_isolation(false)]
    pub fn read_text_content(&mut self) -> (r: Option<&'source str>)
        ensures
            final(self).src() == old(self).src(),
            ({
                let s = old(self).src();
                let i = old(self).at();
                match text_end(s, i, 1) {
                    Some(e) => {
                        &&& r matches Some(t) && t@ == s.subrange(i, e)
                        &&& final(self).at() == e + 1
                    },
                    None => r is None,
                }
            }),
    {
        proof {
            use_type_invariant(&*self);
        }
        let n = self.input.unicode_len();
        let start = self.pos;
        // The depth counter is wider than the cursor so that tracking the
        // nesting depth can never overflow.
        let mut depth: u128 = 1;

        loop
            invariant
                self.input == old(self).input,
                n == self.input@.len(),
                start <= self.pos <= n,
                1 <= depth <= 1 + self.pos - start,
                text_end(self.input@, start as int, 1) == text_end(
                    self.input@,
                    self.pos as int,
                    depth as int,
                ),
            decreases n - self.pos,
        {
            if self.pos >= n {
                return None;
            }
            let cur = self.input.get_char(self.pos);
            if cur == '}' {
                if depth <= 1 {
                    let text = self.input.substring_char(start, self.pos);
                    self.pos = self.pos + 1;
                    return Some(text);
                }
                depth = depth - 1;
                self.pos = self.pos + 1;
            } else if cur == '{' {
                depth = depth + 1;
                self.pos = self.pos + 1;
            } else if cur == '\\' {
                // Check for escaped characters. We only allow an escaped
                // `{` and an escaped `}`.
                if self.pos + 1 < n {
                    let nxt = self.input.get_char(self.pos + 1);
                    if nxt == '{' || nxt == '}' {
                        self.pos = self.pos + 2;
                    } else {
                        return None;
                    }
                } else {
                    return None;
                }
            } else {
                self.pos = self.pos + 1;
            }
        }
    }

    /// Generate the next token.
    ///
    /// When `wants_digit` is set and the character under the cursor is a
    /// decimal digit, exactly that one digit is consumed as a
    /// single-character number token, bypassing multi-digit grouping.
    /// Otherwise leading whitespace is skipped and the next character
    /// deterministically selects the token: a fixed punctuation or
    /// structural token, a command read introduced by a backslash and
    /// resolved through the command table, a multi-character number read
    /// for a leading digit, or a letter (alphabetic) respectively normal
    /// letter (anything else) token.
    pub fn next_token(&mut self, wants_digit: bool) -> (t: Token<'source>)
        ensures
            final(self).src() == old(self).src(),
            ({
                let s = old(self).src();
                let i = old(self).at();
                if wants_digit && i < s.len() && is_digit_char(s[i]) {
                    &&& t matches Token::Number(num, op) && num@ == s.subrange(i, i + 1) && op
                        is None
                    &&& final(self).at() == i + 1
                } else {
                    let j = skip_ws_end(s, i);
                    if j >= s.len() {
                        t == Token::<'source>::EOF && final(self).at() == j
                    } else {
                        let c = s[j];
                        if simple_token(c) is Some {
                            t == simple_token(c).unwrap() && final(self).at() == j + 1
                        } else if c == '\\' {
                            let k = alpha_run_end(s, j + 1);
                            let (a, b) = if k > j + 1 {
                                ((j + 1) as int, k)
                            } else if j + 1 < s.len() {
                                ((j + 1) as int, j + 2)
                            } else {
                                ((j + 1) as int, (j + 1) as int)
                            };
                            &&& final(self).at() == b
                            &&& (if known_command(s.subrange(a, b)) {
                                t == command_token(s.subrange(a, b))
                            } else {
                                t matches Token::UnknownCommand(name) && name@ == s.subrange(a, b)
                            })
                        } else if is_digit_char(c) {
                            let e = number_end(s, j + 1);
                            &&& t matches Token::Number(num, op) && num@ == s.subrange(j, e)
                            &&& (if e < s.len() && is_sep_char(s[e]) {
                                t matches Token::Number(_, op) && op == Some(Op(s[e]))
                                    && final(self).at() == e + 1
                            } else {
                                t matches Token::Number(_, op) && op is None && final(self).at()
                                    == e
                            })
                        } else if is_alpha_char(c) {
                            t == Token::<'source>::Letter(c) && final(self).at() == j + 1
                        } else {
                            t == Token::<'source>::NormalLetter(c) && final(self).at() == j + 1
                        }
                    }
                }
            }),
    {
        proof {
            use_type_invariant(&*self);
        }
        let n = self.input.unicode_len();
        if wants_digit && self.pos < n && ch_is_digit(self.input.get_char(self.pos)) {
            let num = self.input.substring_char(self.pos, self.pos + 1);
            self.pos = self.pos + 1;
            return Token::Number(num, None);
        }

        self.skip_whitespace();
        proof {
            lemma_skip_ws_end_bounds(old(self).src(), old(self).at());
        }
        if self.pos >= n {
            return Token::EOF;
        }

        let c = self.input.get_char(self.pos);
        let token: Token<'source> = match c {
            '=' => Token::Operator(Op('=')),
            ';' => Token::Operator(Op(';')),
            ',' => Token::Operator(Op(',')),
            '.' => Token::Operator(Op('.')),
            '\'' => Token::Prime,
            '(' => Token::Paren(crate::ops::left_parenthesis()),
            ')' => Token::Paren(crate::ops::right_parenthesis()),
            '{' => Token::GroupBegin,
            '}' => Token::GroupEnd,
            '[' => Token::Paren(crate::ops::left_square_bracket()),
            ']' => Token::Paren(crate::ops::right_square_bracket()),
            '|' => Token::Paren(crate::ops::vertical_line()),
            '+' => Token::Operator(Op('+')),
            '-' => Token::Operator(Op('\u{2212}')),
            '*' => Token::Operator(Op('*')),
            '/' => Token::Operator(Op('/')),
            '!' => Token::Operator(Op('!')),
            '<' => Token::OpLessThan,
            '>' => Token::OpGreaterThan,
            '_' => Token::Underscore,
            '^' => Token::Circumflex,
            '&' => Token::Ampersand,
            '~' => Token::NonBreakingSpace,
            '\u{0}' => Token::EOF,
            ':' => Token::Colon,
            ' ' => Token::Letter('\u{A0}'),
            '\\' => {
                self.pos = self.pos + 1;  // Discard the backslash.
                proof {
                    lemma_alpha_run_end_bounds(self.input@, self.pos as int);
                    assert(self.input@.subrange(self.pos as int, self.pos as int) =~= Seq::<
                        char,
                    >::empty());
                }
                let cmd = self.read_command();
                return get_command(cmd);
            },
            _ => {
                if ch_is_digit(c) {
                    let (num, op) = self.read_number();
                    return Token::Number(num, op);
                } else if ch_is_alpha(c) {
                    Token::Letter(c)
                } else {
                    Token::NormalLetter(c)
                }
            },
        };
        self.pos = self.pos + 1;  // Discard the character we just peeked at.
        token
    }
}

} // verus!
