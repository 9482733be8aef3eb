//! The three small enumerations of a breakpoint: trigger condition, slot
//! index and span.
use vstd::prelude::*;
use vstd::std_specs::convert::TryFromSpecImpl;

use crate::bits::bit_at;

verus! {

/// What kind of access makes a breakpoint fire.
#[derive(Copy, Clone, Debug, PartialEq, Eq, Structural)]
pub enum Condition {
    /// `Condition::Execution` must be paired with `Size::One`.
    /// Any other size will result in the breakpoint not being hit.
    Execution,
    Write,
    ReadWrite,
    IoReadWrite,
}

impl Condition {
    /// The two-bit code of the condition in the control register.
    pub open spec fn code(self) -> u8 {
        match self {
            Condition::Execution => 0b00,
            Condition::Write => 0b01,
            Condition::ReadWrite => 0b11,
            Condition::IoReadWrite => 0b10,
        }
    }

    /// The condition that a two-bit code stands for. Every code below four
    /// stands for one.
    pub open spec fn of_code(code: u8) -> Condition
        recommends
            code < 4,
    {
        if code == 0b00 {
            Condition::Execution
        } else if code == 0b01 {
            Condition::Write
        } else if code == 0b11 {
            Condition::ReadWrite
        } else {
            Condition::IoReadWrite
        }
    }

    /// Returns the `Condition` that the two-bit code `bits` stands for, and
    /// `None` for anything that is not a two-bit code.
    pub fn from_bits(bits: u8) -> (r: Option<Condition>)
        ensures
            bits < 4 ==> r == Some(Condition::of_code(bits)),
            bits >= 4 ==> r.is_none(),
    {
        match bits {
            0b00 => Some(Condition::Execution),
            0b01 => Some(Condition::Write),
            0b11 => Some(Condition::ReadWrite),
            0b10 => Some(Condition::IoReadWrite),
            _ => None,
        }
    }

    /// Returns the two-bit code used in the control register.
    pub fn as_bits(self) -> (bits: u8)
        ensures
            bits == self.code(),
            bits < 4,
    {
        match self {
            Condition::Execution => 0b00,
            Condition::Write => 0b01,
            Condition::ReadWrite => 0b11,
            Condition::IoReadWrite => 0b10,
        }
    }

    /// Codes and conditions correspond one to one.
    pub proof fn lemma_code_round_trip(self)
        ensures
            self.code() < 4,
            Condition::of_code(self.code()) == self,
    {
    }

    /// Codes and conditions correspond one to one.
    pub proof fn lemma_of_code_round_trip(code: u8)
        requires
            code < 4,
        ensures
            Condition::of_code(code).code() == code,
    {
    }
}

/// One of the four breakpoint slots.
#[derive(Copy, Clone, Debug, PartialEq, Eq, PartialOrd, Ord, Structural)]
pub enum Index {
    First,
    Second,
    Third,
    Fourth,
}

impl Index {
    /// The number of the slot, from 0 to 3.
    pub open spec fn ordinal(self) -> int {
        match self {
            Index::First => 0,
            Index::Second => 1,
            Index::Third => 2,
            Index::Fourth => 3,
        }
    }

    /// The slot with the given number.
    pub open spec fn of_ordinal(n: int) -> Index
        recommends
            0 <= n < 4,
    {
        if n == 0 {
            Index::First
        } else if n == 1 {
            Index::Second
        } else if n == 2 {
            Index::Third
        } else {
            Index::Fourth
        }
    }

    /// Whether the status register `dr6` has the hit flag of this slot set.
    pub open spec fn hit_in(self, dr6: usize) -> bool {
        bit_at(dr6 as u64, self.ordinal() as u64)
    }

    /// Whether this slot's hit flag is the only one set in the status
    /// register `dr6`.
    pub open spec fn alone_hit_in(self, dr6: usize) -> bool {
        forall|j: Index| #[trigger] j.hit_in(dr6) <==> j == self
    }

    /// Returns the number of the slot, from 0 to 3.
    pub fn position(self) -> (n: u8)
        ensures
            n == self.ordinal(),
            n < 4,
    {
        match self {
            Index::First => 0,
            Index::Second => 1,
            Index::Third => 2,
            Index::Fourth => 3,
        }
    }

    /// Returns the index of the breakpoint that triggered the current exception.
    ///
    /// Keep in mind that the status register is not guaranteed to be cleared
    /// by the processor, so you should reset it in your exception handler for
    /// it to contain useful information.
    ///
    /// If `dr6` does not have exactly one hit flag set, this function returns
    /// `None`.
    pub fn by_dr6(dr6: usize) -> (r: Option<Index>)
        ensures
            match r {
                Some(i) => i.alone_hit_in(dr6),
                None => forall|i: Index| !#[trigger] i.alone_hit_in(dr6),
            },
    {
        let word: u64 = dr6 as u64;
        proof {
            lemma_single_hit(word);
            assert(Index::First.hit_in(dr6) == bit_at(word, 0));
            assert(Index::Second.hit_in(dr6) == bit_at(word, 1));
            assert(Index::Third.hit_in(dr6) == bit_at(word, 2));
            assert(Index::Fourth.hit_in(dr6) == bit_at(word, 3));
        }
        match word & 0b1111 {
            0b0001 => Some(Index::First),
            0b0010 => Some(Index::Second),
            0b0100 => Some(Index::Third),
            0b1000 => Some(Index::Fourth),
            _ => None,
        }
    }
}

/// The low four bits of a status word equal a single flag exactly when that
/// flag alone is set among them.
proof fn lemma_single_hit(word: u64)
    by (bit_vector)
    ensures
        word & 0b1111 == 0b0001 <==> (word & (1u64 << 0u64) != 0 && word & (1u64 << 1u64) == 0
            && word & (1u64 << 2u64) == 0 && word & (1u64 << 3u64) == 0),
        word & 0b1111 == 0b0010 <==> (word & (1u64 << 0u64) == 0 && word & (1u64 << 1u64) != 0
            && word & (1u64 << 2u64) == 0 && word & (1u64 << 3u64) == 0),
        word & 0b1111 == 0b0100 <==> (word & (1u64 << 0u64) == 0 && word & (1u64 << 1u64) == 0
            && word & (1u64 << 2u64) != 0 && word & (1u64 << 3u64) == 0),
        word & 0b1111 == 0b1000 <==> (word & (1u64 << 0u64) == 0 && word & (1u64 << 1u64) == 0
            && word & (1u64 << 2u64) == 0 && word & (1u64 << 3u64) != 0),
{
}

impl TryFrom<u8> for Index {
    type Error = ();

    /// `Ok` with the slot numbered `value` where `value` is below four, and
    /// `Err` otherwise.
    fn try_from(value: u8) -> (r: Result<Self, Self::Error>) {
        match value {
            0 => Ok(Index::First),
            1 => Ok(Index::Second),
            2 => Ok(Index::Third),
            3 => Ok(Index::Fourth),
            _ => Err(()),
        }
    }
}

impl TryFromSpecImpl<u8> for Index {
    open spec fn obeys_try_from_spec() -> bool {
        true
    }

    open spec fn try_from_spec(value: u8) -> Result<Self, ()> {
        if value < 4 {
            Ok(Index::of_ordinal(value as int))
        } else {
            Err(())
        }
    }
}

/// An enum representing the size of a hardware breakpoint.
///
/// **Avoid using `as` to cast this enum to a number, it will not return what
/// you expect it to.**
///
/// Instead, use `Size::in_bytes` and `Size::as_bits`.
#[derive(Copy, Clone, Debug, PartialEq, Eq, PartialOrd, Ord, Structural)]
pub enum Size {
    One,
    Two,
    Four,
    /// Eight byte breakpoints are only supported in 64-bit context.
    Eight,
}

impl Size {
    /// The number of bytes that a breakpoint of this size covers.
    pub open spec fn bytes(self) -> int {
        match self {
            Size::One => 1,
            Size::Two => 2,
            Size::Four => 4,
            Size::Eight => 8,
        }
    }

    /// The two-bit code of the size in the control register. It is not the
    /// position of the variant: four bytes are `0b11` and eight are `0b10`.
    pub open spec fn code(self) -> u8 {
        match self {
            Size::One => 0b00,
            Size::Two => 0b01,
            Size::Four => 0b11,
            Size::Eight => 0b10,
        }
    }

    /// The size that a two-bit code stands for. Every code below four stands
    /// for one.
    pub open spec fn of_code(code: u8) -> Size
        recommends
            code < 4,
    {
        if code == 0b00 {
            Size::One
        } else if code == 0b01 {
            Size::Two
        } else if code == 0b11 {
            Size::Four
        } else {
            Size::Eight
        }
    }

    /// Returns how many bytes a hardware breakpoint using this `Size` would cover.
    pub fn in_bytes(self) -> (n: usize)
        ensures
            n == self.bytes(),
    {
        match self {
            Size::One => 1,
            Size::Two => 2,
            Size::Four => 4,
            Size::Eight => 8,
        }
    }

    /// Returns the two-bit representation used in the control register.
    pub fn as_bits(self) -> (bits: u8)
        ensures
            bits == self.code(),
            bits < 4,
    {
        match self {
            Size::One => 0b00,
            Size::Two => 0b01,
            Size::Four => 0b11,
            Size::Eight => 0b10,
        }
    }

    /// Returns the `Size` that corresponds to the two-bit representation in
    /// the control register, and `None` for anything that is not a two-bit
    /// code.
    pub fn from_bits(bits: u8) -> (r: Option<Self>)
        ensures
            bits < 4 ==> r == Some(Size::of_code(bits)),
            bits >= 4 ==> r.is_none(),
    {
        match bits {
            0b00 => Some(Size::One),
            0b01 => Some(Size::Two),
            0b11 => Some(Size::Four),
            0b10 => Some(Size::Eight),
            _ => None,
        }
    }

    /// Codes and sizes correspond one to one.
    pub proof fn lemma_code_round_trip(self)
        ensures
            self.code() < 4,
            Size::of_code(self.code()) == self,
    {
    }

    /// Codes and sizes correspond one to one.
    pub proof fn lemma_of_code_round_trip(code: u8)
        requires
            code < 4,
        ensures
            Size::of_code(code).code() == code,
    {
    }
}

} // verus!
