//! A sequential, forward-only reader over an immutable byte buffer.

use vstd::prelude::*;

verus! {

/// The little-endian value of a two-byte pair: the first byte is the
/// low-order half, the second the high-order half.
pub open spec fn word_le(lo: u8, hi: u8) -> int {
    lo + 256 * hi
}

/// A cursor over an immutable byte buffer. Reads only move the position
/// forward; reading past the end is a checked, normal outcome (`None`),
/// never an out-of-bounds access.
pub struct ByteStream {
    /// The bytes backing this stream.
    pub bytes: Vec<u8>,
    /// Index of the next byte to read.
    pub pos: usize,
}

impl ByteStream {
    /// The cursor position never runs past the end of the buffer.
    pub open spec fn inv(&self) -> bool {
        self.pos <= self.bytes@.len()
    }

    /// Number of bytes not yet consumed.
    pub open spec fn remaining(&self) -> int {
        self.bytes@.len() - self.pos
    }

    /// A fresh stream positioned at the first byte of `bytes`.
    pub fn new(bytes: Vec<u8>) -> (s: ByteStream)
        ensures
            s.inv(),
            s.bytes@ == bytes@,
            s.pos == 0,
    {
        ByteStream { bytes, pos: 0 }
    }

    /// Reads one byte and advances the position by one; `None` at the end
    /// of the buffer, with the position unchanged.
    pub fn read_byte(&mut self) -> (r: Option<u8>)
        requires
            old(self).inv(),
        ensures
            final(self).inv(),
            final(self).bytes@ == old(self).bytes@,
            old(self).remaining() == 0 ==> r is None && final(self).pos == old(self).pos,
            old(self).remaining() > 0 ==> {
                &&& r == Some(old(self).bytes@[old(self).pos as int])
                &&& final(self).pos == old(self).pos + 1
            },
    {
        if self.pos == self.bytes.len() {
            return None;
        }
        let b = self.bytes[self.pos];
        self.pos = self.pos + 1;
        Some(b)
    }

    /// Reads a little-endian 16-bit word and advances the position by two;
    /// `None` when fewer than two bytes remain, with the position unchanged.
    /// A word is never partially read.
    pub fn read_word(&mut self) -> (r: Option<u16>)
        requires
            old(self).inv(),
        ensures
            final(self).inv(),
            final(self).bytes@ == old(self).bytes@,
            old(self).remaining() < 2 ==> r is None && final(self).pos == old(self).pos,
            old(self).remaining() >= 2 ==> {
                &&& r matches Some(w) && w == word_le(
                    old(self).bytes@[old(self).pos as int],
                    old(self).bytes@[old(self).pos + 1],
                )
                &&& final(self).pos == old(self).pos + 2
            },
    {
        if self.bytes.len() - self.pos < 2 {
            return None;
        }
        let lo: u16 = self.bytes[self.pos] as u16;
        let hi: u16 = (self.bytes[self.pos + 1] as u16) << 8;
        let word: u16 = hi | lo;
        proof {
            let lo8 = self.bytes@[self.pos as int];
            let hi8 = self.bytes@[self.pos + 1];
            assert(((hi8 as u16) << 8) | (lo8 as u16) == lo8 + 256 * hi8) by (bit_vector);
        }
        self.pos = self.pos + 2;
        Some(word)
    }

    /// True exactly when every byte has been consumed.
    pub fn is_empty(&self) -> (r: bool)
        ensures
            r == (self.pos >= self.bytes@.len()),
    {
        self.pos >= self.bytes.len()
    }
}

} // verus!
