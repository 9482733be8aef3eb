//! Single bits and two-bit fields of a register word.
//!
//! A register word is taken as a `u64`, whatever the width it is stored in:
//! a narrower word is its low bits. The functions here read one bit or one
//! two-bit field at an offset and write one back, and say of every other bit
//! and field that it stays as it was.
use vstd::prelude::*;

verus! {

/// Whether the bit at `offset` of `word` is set.
pub open spec fn bit_at(word: u64, offset: u64) -> bool {
    word & (1u64 << offset) != 0
}

/// The two-bit field of `word` whose low bit is at `offset`.
pub open spec fn pair_at(word: u64, offset: u64) -> u8 {
    ((word >> offset) & 3) as u8
}

/// The eight bits of `word` from bit 8 to bit 15.
pub open spec fn second_byte(word: u64) -> u8 {
    ((word >> 8) & 0xff) as u8
}

/// The bits of `word` from bit 32 up.
pub open spec fn high_half(word: u64) -> u32 {
    (word >> 32) as u32
}

/// Whether the `width` bits from `offset` up and the `other_width` bits from
/// `other` up have no bit in common.
pub open spec fn apart(offset: u64, width: u64, other: u64, other_width: u64) -> bool {
    offset + width <= other || other + other_width <= offset
}

/// Returns whether the bit at `offset` of `word` is set.
pub(crate) fn test_bit(word: u64, offset: u32) -> (on: bool)
    requires
        offset < 64,
    ensures
        on == bit_at(word, offset as u64),
{
    word & (1u64 << offset) != 0
}

/// Returns the two-bit field of `word` whose low bit is at `offset`.
pub(crate) fn read_pair(word: u64, offset: u32) -> (code: u8)
    requires
        offset < 63,
    ensures
        code == pair_at(word, offset as u64),
        code < 4,
{
    let field: u64 = (word >> offset) & 3;
    assert(field < 4) by (bit_vector)
        requires
            field == (word >> offset) & 3,
    ;
    field as u8
}

/// Returns `word` with the bit at `offset` set to `on`. No other bit changes.
pub(crate) fn write_bit(word: u64, offset: u32, on: bool) -> (r: u64)
    requires
        offset < 64,
    ensures
        bit_at(r, offset as u64) == on,
        forall|o: u64| o < 64 && o != offset ==> #[trigger] bit_at(r, o) == bit_at(word, o),
        forall|o: u64|
            o < 63 && apart(offset as u64, 1, o, 2) ==> #[trigger] pair_at(r, o) == pair_at(
                word,
                o,
            ),
        apart(offset as u64, 1, 8, 8) ==> second_byte(r) == second_byte(word),
        offset < 32 ==> high_half(r) == high_half(word),
        offset < 32 && word <= u32::MAX ==> r <= u32::MAX,
{
    let flag: u64 = if on {
        1
    } else {
        0
    };
    let cleared: u64 = word & !(1u64 << offset);
    let r: u64 = cleared | (flag << offset);
    proof {
        lemma_bit_written(word, offset as u64, flag, r);
    }
    r
}

/// Returns `word` with the two-bit field at `offset` set to `code`. No other
/// bit changes.
pub(crate) fn write_pair(word: u64, offset: u32, code: u8) -> (r: u64)
    requires
        offset < 63,
        code < 4,
    ensures
        pair_at(r, offset as u64) == code,
        forall|o: u64|
            o < 64 && apart(offset as u64, 2, o, 1) ==> #[trigger] bit_at(r, o) == bit_at(word, o),
        forall|o: u64|
            o < 63 && apart(offset as u64, 2, o, 2) ==> #[trigger] pair_at(r, o) == pair_at(
                word,
                o,
            ),
        apart(offset as u64, 2, 8, 8) ==> second_byte(r) == second_byte(word),
        offset < 31 ==> high_half(r) == high_half(word),
        offset < 31 && word <= u32::MAX ==> r <= u32::MAX,
{
    let field: u64 = code as u64;
    let cleared: u64 = word & !(3u64 << offset);
    let r: u64 = cleared | (field << offset);
    proof {
        lemma_pair_written(word, offset as u64, field, r);
    }
    r
}

proof fn lemma_bit_written(word: u64, offset: u64, flag: u64, r: u64)
    by (bit_vector)
    requires
        offset < 64,
        flag < 2,
        r == (word & !(1u64 << offset)) | (flag << offset),
    ensures
        (r & (1u64 << offset) != 0) == (flag == 1),
        forall|o: u64| o < 64 && o != offset ==> (r & (1u64 << o) != 0) == (word & (1u64 << o) != 0),
        forall|o: u64|
            o < 63 && (offset + 1 <= o || o + 2 <= offset) ==> (((r >> o) & 3) as u8) == (((word
                >> o) & 3) as u8),
        (offset + 1 <= 8 || 16 <= offset) ==> (((r >> 8) & 0xff) as u8) == (((word >> 8)
            & 0xff) as u8),
        offset < 32 ==> ((r >> 32) as u32) == ((word >> 32) as u32),
        offset < 32 && word <= 0xffff_ffff ==> r <= 0xffff_ffff,
{
}

proof fn lemma_pair_written(word: u64, offset: u64, field: u64, r: u64)
    by (bit_vector)
    requires
        offset < 63,
        field < 4,
        r == (word & !(3u64 << offset)) | (field << offset),
    ensures
        (((r >> offset) & 3) as u8) == field,
        forall|o: u64|
            o < 64 && (offset + 2 <= o || o + 1 <= offset) ==> (r & (1u64 << o) != 0) == (word & (
            1u64 << o) != 0),
        forall|o: u64|
            o < 63 && (offset + 2 <= o || o + 2 <= offset) ==> (((r >> o) & 3) as u8) == (((word
                >> o) & 3) as u8),
        (offset + 2 <= 8 || 16 <= offset) ==> (((r >> 8) & 0xff) as u8) == (((word >> 8)
            & 0xff) as u8),
        offset < 31 ==> ((r >> 32) as u32) == ((word >> 32) as u32),
        offset < 31 && word <= 0xffff_ffff ==> r <= 0xffff_ffff,
{
}

} // verus!
