//! Arena allocation and string building for one conversion pass.
//!
//! The arena owns a contiguous growable region for the duration of a single
//! conversion; it hands out references to freshly stored tree nodes and to
//! copied slices of node references, all sharing the arena's lifetime.
//! Nothing is freed individually: reclamation is all-or-nothing when the
//! arena is dropped. If the underlying region cannot grow, the process
//! aborts rather than returning an error, since continuing with a half-built
//! tree would be unsafe.
//!
//! The buffer is a single reusable scratchpad for assembling strings from
//! pieces before committing them into the arena.

use vstd::prelude::*;
use vstd::string::StringExecFns;
use crate::ast::Node;
use crate::strbuf::{string_clear, string_push, string_with_capacity};

verus! {

/// Declares `bumpalo::Bump`, the bump allocator that backs the arena, as
/// an opaque outside type.
#[verifier::external_type_specification]
#[verifier::external_body]
pub struct ExBump<const MIN_ALIGN: usize>(bumpalo::Bump<MIN_ALIGN>);

/// A bump-style allocator for tree nodes, node slices and committed
/// strings, with a lifetime tied to one conversion pass.
pub struct Arena {
    bump: bumpalo::Bump,
}

impl Arena {
    /// Relies on `bumpalo::Bump::new`: a fresh, empty allocation region.
    #[verifier::external_body]
    pub fn new() -> Arena {
        Arena { bump: bumpalo::Bump::new() }
    }

    /// Moves a constructed node into arena storage and returns an exclusive
    /// reference to it, valid for the arena's whole lifetime.
    ///
    /// Relies on `bumpalo::Bump::alloc`: the returned reference holds
    /// exactly the moved value; on allocation failure the process aborts.
    #[verifier::external_body]
    pub fn push<'arena>(&'arena self, node: Node<'arena>) -> (r: &'arena mut Node<'arena>)
        ensures
            *r == node,
    {
        self.bump.alloc(node)
    }

    /// Copies a sequence of node references into arena-owned contiguous
    /// storage, preserving their order.
    ///
    /// Relies on `bumpalo::Bump::alloc_slice_copy`: the returned slice holds
    /// exactly the given elements; on allocation failure the process aborts.
    #[verifier::external_body]
    pub fn push_slice<'arena>(
        &'arena self,
        nodes: &[&'arena Node<'arena>],
    ) -> (r: &'arena [&'arena Node<'arena>])
        ensures
            r@ == nodes@,
    {
        self.bump.alloc_slice_copy(nodes)
    }

    /// Copies a string into arena storage.
    ///
    /// Relies on `bumpalo::Bump::alloc_str`: the returned slice holds
    /// exactly the given text; on allocation failure the process aborts.
    #[verifier::external_body]
    fn alloc_str<'arena>(&'arena self, src: &str) -> (r: &'arena str)
        ensures
            r@ == src@,
    {
        self.bump.alloc_str(src)
    }
}

/// The single reusable scratchpad in which strings are assembled before
/// they are committed into the arena.
#[derive(Debug)]
pub struct Buffer {
    s: String,
}

impl View for Buffer {
    type V = Seq<char>;

    closed spec fn view(&self) -> Seq<char> {
        self.s@
    }
}

impl Buffer {
    /// A fresh buffer with room for roughly `size_hint` bytes.
    pub fn new(size_hint: usize) -> (b: Buffer)
        ensures
            b@ == Seq::<char>::empty(),
    {
        Buffer { s: string_with_capacity(size_hint) }
    }

    /// Clears the buffer and exclusively locks it behind a builder. Whatever
    /// a previous use left in the buffer is discarded here, so the builder
    /// always starts from empty content.
    pub fn get_builder<'buffer>(&'buffer mut self) -> (b: StringBuilder<'buffer>)
        ensures
            b@ == Seq::<char>::empty(),
    {
        StringBuilder::new(self)
    }
}

/// A helper type to safely build a string in the buffer from multiple
/// pieces. It holds an exclusive reference to the buffer, so no second
/// builder can be acquired while this one is alive, and it clears the buffer
/// on acquisition: upon finishing, the buffer contains exactly what was
/// written through this builder and nothing older.
pub struct StringBuilder<'buffer> {
    buffer: &'buffer mut Buffer,
}

impl<'buffer> View for StringBuilder<'buffer> {
    type V = Seq<char>;

    closed spec fn view(&self) -> Seq<char> {
        (*self.buffer).s@
    }
}

impl<'buffer> StringBuilder<'buffer> {
    /// Starts building in the given buffer, discarding its prior contents.
    pub fn new(buffer: &'buffer mut Buffer) -> (b: StringBuilder<'buffer>)
        ensures
            b@ == Seq::<char>::empty(),
    {
        string_clear(&mut buffer.s);
        StringBuilder { buffer }
    }

    /// Appends a substring to the in-progress string.
    pub fn push_str(&mut self, src: &str)
        ensures
            final(self)@ == old(self)@ + src@,
    {
        self.buffer.s.append(src);
    }

    /// Appends a single character to the in-progress string.
    pub fn push_char(&mut self, c: char)
        ensures
            final(self)@ == old(self)@.push(c),
    {
        string_push(&mut self.buffer.s, c);
    }

    /// The length in bytes of the text accumulated so far, under the UTF-8
    /// encoding of its characters: a multi-byte character contributes
    /// exactly the width of its encoding.
    pub fn byte_len(&self) -> (n: usize)
        ensures
            n == vstd::utf8::encode_utf8(self@).len() as usize,
    {
        self.buffer.s.as_str().len()
    }

    /// Commits the accumulated text into the arena and returns it as an
    /// immutable slice holding exactly what was appended since the builder
    /// was acquired. The builder is consumed and cannot be reused.
    pub fn finish<'arena>(self, arena: &'arena Arena) -> (r: &'arena str)
        ensures
            r@ == self@,
    {
        arena.alloc_str(self.buffer.s.as_str())
    }
}

} // verus!
