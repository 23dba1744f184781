//! The set of pieces a peer claims to hold, one bit per piece.

use vstd::prelude::*;

verus! {

/// A peer's availability map. Bit `i`, counted from the most significant
/// bit of byte `i / 8`, says that the peer holds piece `i`.
pub struct BitField {
    pub bits: Vec<u8>,
}

/// The mask that selects piece `index` inside its byte.
pub open spec fn piece_mask(index: u32) -> u8 {
    1u8 << ((7 - index % 8) as u8)
}

/// Whether the bit of piece `index` is set in `bits`. An index whose byte
/// lies outside `bits` is never set.
pub open spec fn bits_have_piece(bits: Seq<u8>, index: u32) -> bool {
    index / 8 < bits.len() && bits[(index / 8) as int] & piece_mask(index) != 0
}

/// `bits` with the bit of piece `index` set. An index whose byte lies
/// outside `bits` changes nothing.
pub open spec fn bits_with_piece(bits: Seq<u8>, index: u32) -> Seq<u8> {
    if index / 8 < bits.len() {
        bits.update((index / 8) as int, bits[(index / 8) as int] | piece_mask(index))
    } else {
        bits
    }
}

impl View for BitField {
    type V = Seq<u8>;

    open spec fn view(&self) -> Seq<u8> {
        self.bits@
    }
}

impl BitField {
    /// Wraps the payload of a peer's `bitfield` message.
    pub fn new(bits: Vec<u8>) -> (bitfield: BitField)
        ensures
            bitfield.bits == bits,
    {
        BitField { bits }
    }

    /// Whether the peer holds piece `index`.
    pub fn has_piece(&self, index: u32) -> (has: bool)
        ensures
            has == bits_have_piece(self@, index),
    {
        let byte: usize = (index / 8) as usize;
        let offset: u32 = index % 8;
        if byte >= self.bits.len() {
            return false;
        }
        let value: u8 = self.bits[byte];
        assert((value >> ((7 - offset) as u8)) & 1 != 0 <==> value & (1u8 << ((7 - offset) as u8))
            != 0) by (bit_vector)
            requires
                offset < 8,
        ;
        (value >> ((7 - offset) as u8)) & 1 != 0
    }

    /// Records that the peer holds piece `index`.
    pub fn set_piece(&mut self, index: u32)
        ensures
            final(self)@ == bits_with_piece(old(self)@, index),
    {
        let byte: usize = (index / 8) as usize;
        let offset: u32 = index % 8;
        if byte >= self.bits.len() {
            return ;
        }
        let value: u8 = self.bits[byte];
        self.bits.set(byte, value | (1u8 << ((7 - offset) as u8)));
    }
}

/// Once a piece within range is set, it is found.
pub proof fn lemma_set_then_has(bits: Seq<u8>, index: u32)
    requires
        index / 8 < bits.len(),
    ensures
        bits_have_piece(bits_with_piece(bits, index), index),
{
    let value = bits[(index / 8) as int];
    let mask = piece_mask(index);
    let shift = (7 - index % 8) as u8;
    assert((value | (1u8 << shift)) & (1u8 << shift) != 0) by (bit_vector)
        requires
            shift < 8,
    ;
}

/// Setting one piece changes the answer for no other piece.
pub proof fn lemma_set_keeps_others(bits: Seq<u8>, index: u32, other: u32)
    requires
        other != index,
    ensures
        bits_have_piece(bits_with_piece(bits, index), other) == bits_have_piece(bits, other),
{
    if index / 8 < bits.len() && other / 8 == index / 8 {
        let value = bits[(index / 8) as int];
        let shift = (7 - index % 8) as u8;
        let other_shift = (7 - other % 8) as u8;
        assert(shift != other_shift);
        assert(((value | (1u8 << shift)) & (1u8 << other_shift) != 0) == (value & (1u8
            << other_shift) != 0)) by (bit_vector)
            requires
                shift < 8,
                other_shift < 8,
                shift != other_shift,
        ;
    }
}

/// A piece beyond the bytes of the bitfield is absent, and setting it
/// leaves the bitfield as it was.
pub proof fn lemma_out_of_range_is_absent(bits: Seq<u8>, index: u32)
    requires
        index / 8 >= bits.len(),
    ensures
        !bits_have_piece(bits, index),
        bits_with_piece(bits, index) == bits,
{
}

/// In a bitfield of zero bytes no piece is present.
pub proof fn lemma_zeroed_has_no_piece(bits: Seq<u8>, index: u32)
    requires
        forall|i: int| 0 <= i < bits.len() ==> bits[i] == 0,
    ensures
        !bits_have_piece(bits, index),
{
    let mask = piece_mask(index);
    assert(0u8 & mask == 0) by (bit_vector);
}

} // verus!
