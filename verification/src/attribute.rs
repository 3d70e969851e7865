//! Rendering attributes attached to classified symbols.

use vstd::prelude::*;

verus! {

/// Whether a fence-class delimiter should visually resize to match the
/// content it encloses, and under which positional conditions.
#[derive(Debug, Clone, Copy, PartialEq, Eq)]
pub enum Stretchy {
    /// The delimiter always stretches.
    Always,
    /// The delimiter never stretches.
    Never,
    /// The delimiter stretches only in prefix or postfix position.
    PrePostfix,
    /// Renderers disagree on whether the delimiter stretches.
    Inconsistent,
}

} // verus!
