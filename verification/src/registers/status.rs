//! The debug status register.
//!
//! After a debug exception the register says what caused it: bits 0 to 3
//! are the hit flags of the four slots, bit 13 a debug-register access, bit
//! 14 a single step and bit 15 a task switch. The processor does not clear
//! the register, so a handler resets it, which leaves exactly bit 16 set.
use vstd::prelude::*;

use crate::bits::{bit_at, test_bit};
use crate::enums::Index;
use crate::registers::word::{ReadWord, WriteWord};

verus! {

/// The status word that a reset leaves: bit 16 set and nothing else. The
/// processor clears that bit only for a debug exception inside a
/// transactional region, so a word at rest has it set.
pub const STATUS_IDLE: u64 = 0x1_0000;

/// What a status register word says of the last debug exception.
pub struct StatusView {
    /// Whether the condition of each slot was met, in the order of the
    /// indices. More than one may be set.
    pub hits: Seq<bool>,
    /// The next instruction accesses a debug register.
    pub debug_register_access: bool,
    /// The exception came from single-stepping.
    pub single_step: bool,
    /// The exception came from a task switch.
    pub task_switch: bool,
}

impl StatusView {
    /// Whether the condition of the slot `index` was met.
    pub open spec fn hit(self, index: Index) -> bool {
        self.hits[index.ordinal()]
    }

    /// Whether the condition of any slot was met.
    pub open spec fn any_hit(self) -> bool {
        self.hits[0] || self.hits[1] || self.hits[2] || self.hits[3]
    }
}

/// What the status register word `word` says: the hit flags are bits 0 to 3,
/// and the three causes are bits 13, 14 and 15.
pub open spec fn status_view(word: u64) -> StatusView {
    StatusView {
        hits: Seq::new(4, |i: int| bit_at(word, i as u64)),
        debug_register_access: bit_at(word, 13),
        single_step: bit_at(word, 14),
        task_switch: bit_at(word, 15),
    }
}

/// What a reset makes of the status register word `word`: the word as it
/// was, which is handed back, and the word that is left in the register.
pub open spec fn reset_status(word: u64) -> (u64, u64) {
    (word, STATUS_IDLE)
}

/// A reset hands back the word it found and leaves the idle word; a second
/// reset finds the idle word and leaves it.
pub proof fn lemma_reset_is_idempotent(word: u64)
    ensures
        reset_status(word) == (word, STATUS_IDLE),
        reset_status(reset_status(word).1) == (STATUS_IDLE, STATUS_IDLE),
{
}

/// The view of a status word has a slot hit exactly where the word has the
/// hit flag of the slot set.
pub proof fn lemma_hit_is_the_flag(dr6: usize, index: Index)
    ensures
        status_view(dr6 as u64).hit(index) == index.hit_in(dr6),
{
}

proof fn lemma_any_hit(word: u64)
    by (bit_vector)
    ensures
        (word & 0b1111 != 0) == (word & (1u64 << 0u64) != 0 || word & (1u64 << 1u64) != 0 || word & (
        1u64 << 2u64) != 0 || word & (1u64 << 3u64) != 0),
{
}

/// The debug status register.
#[derive(Copy, Clone, PartialEq, Eq)]
pub struct Dr6<T>(pub T);

impl<T: ReadWord> Dr6<T> {
    /// What the register says.
    pub open spec fn view(&self) -> StatusView {
        status_view(self.0.value())
    }

    /// Returns whether the exception was caused by a hardware breakpoint.
    #[must_use]
    pub fn breakpoint(&self) -> (hit: bool)
        ensures
            hit == self@.any_hit(),
    {
        let word = self.0.read();
        proof {
            lemma_any_hit(word);
        }
        word & 0b1111 != 0
    }

    /// Returns whether the exception was caused by the hardware breakpoint
    /// at a specific index.
    pub fn breakpoint_at(&self, index: Index) -> (hit: bool)
        ensures
            hit == self@.hit(index),
    {
        test_bit(self.0.read(), index.position() as u32)
    }

    /// Returns an array of bools representing whether the hardware
    /// breakpoint at the respective indices triggered the exception.
    ///
    /// The flags are set if the condition of a breakpoint was met when the
    /// exception was generated. They may or may not be set if the breakpoint
    /// is not enabled, so a handler should check only the flags of enabled
    /// breakpoints.
    #[must_use]
    pub fn breakpoints(&self) -> (hits: [bool; 4])
        ensures
            hits@ == self@.hits,
    {
        let word = self.0.read();
        let hits = [test_bit(word, 0), test_bit(word, 1), test_bit(word, 2), test_bit(word, 3)];
        assert(hits@ =~= status_view(word).hits);
        hits
    }

    /// Returns whether the exception was caused by the thread accessing a
    /// debug register.
    #[must_use]
    pub fn debug_register_access(&self) -> (set: bool)
        ensures
            set == self@.debug_register_access,
    {
        test_bit(self.0.read(), 13)
    }

    /// Returns whether the exception was caused by single-stepping.
    #[must_use]
    pub fn single_step(&self) -> (set: bool)
        ensures
            set == self@.single_step,
    {
        test_bit(self.0.read(), 14)
    }

    /// Returns whether the exception was caused by a task switch.
    #[must_use]
    pub fn task_switch(&self) -> (set: bool)
        ensures
            set == self@.task_switch,
    {
        test_bit(self.0.read(), 15)
    }
}

impl<T: WriteWord + Copy> Dr6<T> {
    /// Resets the register and returns the previous value, leaving only bit
    /// 16 set.
    pub fn reset(&mut self) -> (previous: T)
        ensures
            previous == old(self).0,
            (previous.value(), final(self).0.value()) == reset_status(old(self).0.value()),
    {
        proof {
            self.0.lemma_width();
        }
        let previous = self.0;
        self.0.write(STATUS_IDLE);
        previous
    }
}

impl<'a> Dr6<&'a mut u32> {
    /// Resets the word that was lent and returns the previous value, leaving
    /// only bit 16 set. The lender finds the word as this call leaves it.
    pub fn reset(&mut self) -> (previous: u32)
        ensures
            previous == *old(self).0,
            (previous.value(), final(self).0.value()) == reset_status(old(self).0.value()),
            *final(final(self).0) == *final(old(self).0),
    {
        let previous = *self.0;
        self.0.write(STATUS_IDLE);
        previous
    }
}

impl<'a> Dr6<&'a mut u64> {
    /// Resets the word that was lent and returns the previous value, leaving
    /// only bit 16 set. The lender finds the word as this call leaves it.
    pub fn reset(&mut self) -> (previous: u64)
        ensures
            previous == *old(self).0,
            (previous.value(), final(self).0.value()) == reset_status(old(self).0.value()),
            *final(final(self).0) == *final(old(self).0),
    {
        let previous = *self.0;
        self.0.write(STATUS_IDLE);
        previous
    }
}

impl<'a> Dr6<&'a mut usize> {
    /// Resets the word that was lent and returns the previous value, leaving
    /// only bit 16 set. The lender finds the word as this call leaves it.
    pub fn reset(&mut self) -> (previous: usize)
        ensures
            previous == *old(self).0,
            (previous.value(), final(self).0.value()) == reset_status(old(self).0.value()),
            *final(final(self).0) == *final(old(self).0),
    {
        let previous = *self.0;
        self.0.write(STATUS_IDLE);
        previous
    }
}

} // verus!
