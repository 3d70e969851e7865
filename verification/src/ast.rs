//! Tree nodes built by the grammar layer on top of the token stream.
//!
//! The recursive shape of the full expression tree belongs to the grammar
//! layer; the node forms here are the ones the allocation layer hands out:
//! leaves carrying resolved lexical data, and a row of children stored as an
//! arena-allocated slice.

use vstd::prelude::*;
use crate::ops::Op;

verus! {

/// One node of the output tree. All nodes are allocated through the arena
/// and share its lifetime; string payloads are either borrowed from the
/// input or copied into the arena.
#[derive(Debug, Clone, Copy, PartialEq)]
pub enum Node<'arena> {
    /// A number, carried over verbatim from the source.
    Number(&'arena str),
    /// A single identifier character.
    Letter(char),
    /// An operator with its resolved plain-operator value.
    Operator(Op),
    /// An explicit space of the given width.
    Space(&'arena str),
    /// A run of text committed into the arena.
    Text(&'arena str),
    /// An ordered sequence of child nodes, stored in the arena.
    Row(&'arena [&'arena Node<'arena>]),
}

} // verus!
