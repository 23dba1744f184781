//! Where a piece lies in the file and how long it is.

use vstd::prelude::*;

verus! {

/// First byte of piece `piece_index` in a file cut into pieces of
/// `piece_length` bytes.
pub open spec fn piece_begin(piece_length: int, piece_index: int) -> int {
    piece_index * piece_length
}

/// One past the last byte of piece `piece_index`: the nominal end, cut
/// down to the end of the file.
pub open spec fn piece_end(length: int, piece_length: int, piece_index: int) -> int {
    if piece_begin(piece_length, piece_index) + piece_length > length {
        length
    } else {
        piece_begin(piece_length, piece_index) + piece_length
    }
}

/// Number of bytes of piece `piece_index`.
pub open spec fn piece_size(length: int, piece_length: int, piece_index: int) -> int {
    piece_end(length, piece_length, piece_index) - piece_begin(piece_length, piece_index)
}

/// Number of pieces of a file of `length` bytes: the quotient, rounded up.
pub open spec fn piece_count(length: int, piece_length: int) -> int {
    if length % piece_length == 0 {
        length / piece_length
    } else {
        length / piece_length + 1
    }
}

/// Of the pieces of a file, all but the last are `piece_length` bytes
/// long. The last one holds what is left over, `length - piece_length *
/// (length / piece_length)` bytes, or a whole piece when nothing is left
/// over.
pub proof fn lemma_piece_sizes(length: int, piece_length: int, piece_index: int)
    requires
        0 <= length,
        0 < piece_length,
        0 <= piece_index < piece_count(length, piece_length),
    ensures
        piece_index < piece_count(length, piece_length) - 1 ==> piece_size(
            length,
            piece_length,
            piece_index,
        ) == piece_length,
        piece_index == piece_count(length, piece_length) - 1 ==> piece_size(
            length,
            piece_length,
            piece_index,
        ) == if length % piece_length != 0 {
            length - piece_length * (length / piece_length)
        } else {
            piece_length
        },
{
    let quotient = length / piece_length;
    let remainder = length % piece_length;
    assert(length == piece_length * quotient + remainder && 0 <= remainder < piece_length) by {
        vstd::arithmetic::div_mod::lemma_fundamental_div_mod(length, piece_length);
        vstd::arithmetic::div_mod::lemma_mod_bound(length, piece_length);
    }
    let count = piece_count(length, piece_length);
    if piece_index < quotient {
        assert(piece_index * piece_length + piece_length <= piece_length * quotient)
            by (nonlinear_arith)
            requires
                piece_index + 1 <= quotient,
                0 < piece_length,
        ;
    } else {
        assert(piece_index == quotient && remainder != 0);
        assert(piece_index * piece_length == piece_length * quotient) by (nonlinear_arith)
            requires
                piece_index == quotient,
        ;
    }
}

/// The half-open byte range `[begin, end)` of a piece within the file.
pub fn calculate_bounds_for_piece(length: u32, piece_length: u32, piece_index: u32) -> (bounds: (
    u32,
    u32,
))
    requires
        piece_begin(piece_length as int, piece_index as int) <= u32::MAX,
    ensures
        bounds.0 == piece_begin(piece_length as int, piece_index as int),
        bounds.1 == piece_end(length as int, piece_length as int, piece_index as int),
{
    assert(0 <= piece_index * piece_length) by (nonlinear_arith);
    let begin: u32 = piece_index * piece_length;
    let nominal_end: u64 = begin as u64 + piece_length as u64;
    let end: u32 = if nominal_end > length as u64 {
        length
    } else {
        nominal_end as u32
    };
    (begin, end)
}

/// The number of bytes of a piece that starts within the file.
pub fn calculate_piece_size(length: u32, piece_length: u32, piece_index: u32) -> (size: u32)
    requires
        piece_begin(piece_length as int, piece_index as int) <= length,
    ensures
        size == piece_size(length as int, piece_length as int, piece_index as int),
        size <= piece_length,
{
    let (begin, end) = calculate_bounds_for_piece(length, piece_length, piece_index);
    end - begin
}

} // verus!
