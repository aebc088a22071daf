//! The append-only bit stream that the mode encoders and the finalizer fill.
//!
//! The stream has a hard capacity: `MAX_DATA_BITS`, the largest data-bit
//! budget of any symbol (version 40, level L). Exceeding it is a defect of
//! the structural tables or of version selection, so every append demands
//! room for what it writes.

use vstd::prelude::*;
use crate::bits::bits_of;

verus! {

/// The largest data-bit budget across all versions and levels:
/// 2956 data codewords at version 40, level L, times 8 bits each.
pub const MAX_DATA_BITS: usize = 23648;

/// An ordered, append-only sequence of bits with a hard maximum capacity.
pub struct BitString {
    bits: Vec<bool>,
}

impl View for BitString {
    type V = Seq<bool>;

    closed spec fn view(&self) -> Seq<bool> {
        self.bits@
    }
}

impl BitString {
    /// Creates an empty bit stream.
    pub fn new() -> (r: BitString)
        ensures
            r@ == Seq::<bool>::empty(),
    {
        BitString { bits: Vec::new() }
    }

    /// Number of bits appended so far.
    pub fn len(&self) -> (r: usize)
        ensures
            r == self@.len(),
    {
        self.bits.len()
    }

    /// Reads the bit at position `i`.
    pub fn get(&self, i: usize) -> (r: bool)
        requires
            i < self@.len(),
        ensures
            r == self@[i as int],
    {
        self.bits[i]
    }

    /// Appends a single bit.
    pub fn push(&mut self, b: bool)
        requires
            old(self)@.len() < MAX_DATA_BITS,
        ensures
            final(self)@ == old(self)@.push(b),
    {
        self.bits.push(b);
    }

    /// Appends the `n` low bits of `value`, most significant bit first.
    pub fn push_bits(&mut self, value: u16, n: usize)
        requires
            n <= 16,
            old(self)@.len() + n <= MAX_DATA_BITS,
        ensures
            final(self)@ == old(self)@ + bits_of(value as nat, n as nat),
        decreases n,
    {
        if n == 0 {
            assert(self@ =~= old(self)@ + bits_of(value as nat, 0));
        } else {
            self.push_bits(value / 2, n - 1);
            proof {
                crate::bits::lemma_bits_of_len(value as nat / 2, (n - 1) as nat);
            }
            self.push(value % 2 == 1);
            assert(self@ =~= old(self)@ + bits_of(value as nat, n as nat));
        }
    }

    /// Appends a full byte, most significant bit first.
    pub fn push_u8(&mut self, byte: u8)
        requires
            old(self)@.len() + 8 <= MAX_DATA_BITS,
        ensures
            final(self)@ == old(self)@ + bits_of(byte as nat, 8),
    {
        self.push_bits(byte as u16, 8);
    }
}

} // verus!
