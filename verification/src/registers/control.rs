//! The debug control register.
//!
//! For each of the four slots the register holds whether the breakpoint is
//! enabled, for the current task and for every task, which access makes it
//! fire, and how many bytes it watches. The local-enable flag of slot `i` is
//! bit `2 * i` and its global-enable flag bit `2 * i + 1`; the two-bit code
//! of its condition starts at bit `16 + 4 * i` and that of its size at bit
//! `18 + 4 * i`. Bits 8 to 15 are reserved flags, which nothing here changes.
use vstd::prelude::*;

use crate::bits::{
    bit_at, high_half, pair_at, read_pair, second_byte, test_bit, write_bit, write_pair,
};
use crate::enums::{Condition, Index, Size};
use crate::registers::word::{ReadWord, WriteWord};

verus! {

/// What the control register holds for one breakpoint slot.
pub struct SlotControl {
    /// The breakpoint is enabled for the current task.
    pub enabled_local: bool,
    /// The breakpoint is enabled for every task.
    pub enabled_global: bool,
    /// The access that makes the breakpoint fire.
    pub condition: Condition,
    /// The number of bytes that the breakpoint watches.
    pub size: Size,
}

impl SlotControl {
    /// The slot of a breakpoint that was never set: not enabled, with the
    /// condition and the size whose codes are zero.
    pub open spec fn off() -> SlotControl {
        SlotControl {
            enabled_local: false,
            enabled_global: false,
            condition: Condition::Execution,
            size: Size::One,
        }
    }
}

/// What a control register word holds: the four slots, the reserved flags of
/// bits 8 to 15, and whatever lies above bit 31.
pub struct ControlView {
    /// The four slots, in the order of their indices.
    pub slots: Seq<SlotControl>,
    /// Bits 8 to 15.
    pub reserved: u8,
    /// Bits 32 and up.
    pub high: u32,
}

impl ControlView {
    /// What the view holds for the slot `index`.
    pub open spec fn slot(self, index: Index) -> SlotControl {
        self.slots[index.ordinal()]
    }

    /// The view with the slot `index` replaced.
    pub open spec fn with_slot(self, index: Index, slot: SlotControl) -> ControlView {
        ControlView { slots: self.slots.update(index.ordinal(), slot), ..self }
    }

    /// The view with the local-enable flag of the slot `index` replaced.
    pub open spec fn with_enabled_local(self, index: Index, enabled: bool) -> ControlView {
        self.with_slot(index, SlotControl { enabled_local: enabled, ..self.slot(index) })
    }

    /// The view with the global-enable flag of the slot `index` replaced.
    pub open spec fn with_enabled_global(self, index: Index, enabled: bool) -> ControlView {
        self.with_slot(index, SlotControl { enabled_global: enabled, ..self.slot(index) })
    }

    /// The view with the condition of the slot `index` replaced.
    pub open spec fn with_condition(self, index: Index, condition: Condition) -> ControlView {
        self.with_slot(index, SlotControl { condition, ..self.slot(index) })
    }

    /// The view with the size of the slot `index` replaced.
    pub open spec fn with_size(self, index: Index, size: Size) -> ControlView {
        self.with_slot(index, SlotControl { size, ..self.slot(index) })
    }

    /// The view with the slot `index` switched off.
    pub open spec fn without(self, index: Index) -> ControlView {
        self.with_slot(index, SlotControl::off())
    }

    /// The view with every slot switched off and nothing above bit 31. The
    /// reserved flags stay.
    pub open spec fn cleared(self) -> ControlView {
        ControlView {
            slots: Seq::new(4, |i: int| SlotControl::off()),
            reserved: self.reserved,
            high: 0,
        }
    }
}

/// The bits of a control register word that no clearing touches: the reserved
/// flags of bits 8 to 15.
pub const RESERVED_FLAGS: u64 = 0xff00;

/// The offset of the local-enable flag of the slot `index`.
pub open spec fn local_offset(index: Index) -> u64 {
    (2 * index.ordinal()) as u64
}

/// The offset of the global-enable flag of the slot `index`.
pub open spec fn global_offset(index: Index) -> u64 {
    (2 * index.ordinal() + 1) as u64
}

/// The offset of the two-bit condition code of the slot `index`.
pub open spec fn condition_offset(index: Index) -> u64 {
    (16 + 4 * index.ordinal()) as u64
}

/// The offset of the two-bit size code of the slot `index`.
pub open spec fn size_offset(index: Index) -> u64 {
    (18 + 4 * index.ordinal()) as u64
}

/// What the control register word `word` holds for the slot `index`.
pub open spec fn slot_control(word: u64, index: Index) -> SlotControl {
    SlotControl {
        enabled_local: bit_at(word, local_offset(index)),
        enabled_global: bit_at(word, global_offset(index)),
        condition: Condition::of_code(pair_at(word, condition_offset(index))),
        size: Size::of_code(pair_at(word, size_offset(index))),
    }
}

/// What the control register word `word` holds.
pub open spec fn control_view(word: u64) -> ControlView {
    ControlView {
        slots: Seq::new(4, |i: int| slot_control(word, Index::of_ordinal(i))),
        reserved: second_byte(word),
        high: high_half(word),
    }
}

fn local_shift(index: Index) -> (offset: u32)
    ensures
        offset == local_offset(index),
        offset < 8,
{
    2 * (index.position() as u32)
}

fn global_shift(index: Index) -> (offset: u32)
    ensures
        offset == global_offset(index),
        offset < 8,
{
    1 + 2 * (index.position() as u32)
}

fn condition_shift(index: Index) -> (offset: u32)
    ensures
        offset == condition_offset(index),
        16 <= offset < 31,
{
    16 + 4 * (index.position() as u32)
}

fn size_shift(index: Index) -> (offset: u32)
    ensures
        offset == size_offset(index),
        16 <= offset < 31,
{
    18 + 4 * (index.position() as u32)
}

/// Replaces the local-enable flag of the slot `index` in the word that
/// `storage` holds.
fn put_enabled_local<W: WriteWord>(storage: &mut W, index: Index, enabled: bool)
    ensures
        control_view(final(storage).value()) == control_view(
            old(storage).value(),
        ).with_enabled_local(index, enabled),
{
    proof {
        storage.lemma_width();
    }
    let word = storage.read();
    let r = write_bit(word, local_shift(index), enabled);
    assert(control_view(r).slots =~= control_view(word).with_enabled_local(index, enabled).slots);
    storage.write(r);
}

/// Replaces the global-enable flag of the slot `index` in the word that
/// `storage` holds.
fn put_enabled_global<W: WriteWord>(storage: &mut W, index: Index, enabled: bool)
    ensures
        control_view(final(storage).value()) == control_view(
            old(storage).value(),
        ).with_enabled_global(index, enabled),
{
    proof {
        storage.lemma_width();
    }
    let word = storage.read();
    let r = write_bit(word, global_shift(index), enabled);
    assert(control_view(r).slots =~= control_view(word).with_enabled_global(index, enabled).slots);
    storage.write(r);
}

/// Replaces the condition of the slot `index` in the word that `storage`
/// holds.
fn put_condition<W: WriteWord>(storage: &mut W, index: Index, condition: Condition)
    ensures
        control_view(final(storage).value()) == control_view(old(storage).value()).with_condition(
            index,
            condition,
        ),
{
    proof {
        storage.lemma_width();
        condition.lemma_code_round_trip();
    }
    let word = storage.read();
    let r = write_pair(word, condition_shift(index), condition.as_bits());
    assert(control_view(r).slots =~= control_view(word).with_condition(index, condition).slots);
    storage.write(r);
}

/// Replaces the size of the slot `index` in the word that `storage` holds.
fn put_size<W: WriteWord>(storage: &mut W, index: Index, size: Size)
    ensures
        control_view(final(storage).value()) == control_view(old(storage).value()).with_size(
            index,
            size,
        ),
{
    proof {
        storage.lemma_width();
        size.lemma_code_round_trip();
    }
    let word = storage.read();
    let r = write_pair(word, size_shift(index), size.as_bits());
    assert(control_view(r).slots =~= control_view(word).with_size(index, size).slots);
    storage.write(r);
}

/// Switches the slot `index` off in the word that `storage` holds.
fn put_off<W: WriteWord>(storage: &mut W, index: Index)
    ensures
        control_view(final(storage).value()) == control_view(old(storage).value()).without(index),
{
    put_enabled_local(storage, index, false);
    put_enabled_global(storage, index, false);
    put_condition(storage, index, Condition::Execution);
    put_size(storage, index, Size::One);
    assert(control_view(storage.value()).slots =~= control_view(old(storage).value()).without(
        index,
    ).slots);
}

/// Switches every slot off in the word that `storage` holds: only bits 8 to
/// 15 stay.
fn put_all_off<W: WriteWord>(storage: &mut W)
    ensures
        control_view(final(storage).value()) == control_view(old(storage).value()).cleared(),
{
    proof {
        storage.lemma_width();
    }
    let word = storage.read();
    let r = word & RESERVED_FLAGS;
    proof {
        lemma_cleared(word, r);
        assert(control_view(r).slots =~= control_view(word).cleared().slots);
    }
    storage.write(r);
}

proof fn lemma_cleared(word: u64, r: u64)
    by (bit_vector)
    requires
        r == word & 0xff00,
    ensures
        forall|o: u64| o < 8 ==> !(r & (1u64 << o) != 0),
        forall|o: u64| 16 <= o < 63 ==> (((r >> o) & 3) as u8) == 0,
        (((r >> 8) & 0xff) as u8) == (((word >> 8) & 0xff) as u8),
        ((r >> 32) as u32) == 0,
        r <= 0xffff_ffff,
{
}

/// A control register word is told by its view: two words that hold the same
/// for every slot, in the reserved flags and above bit 31 are the same word.
pub proof fn lemma_control_view_injective(a: u64, b: u64)
    requires
        control_view(a) == control_view(b),
    ensures
        a == b,
{
    lemma_slot_fields(a, b, Index::First);
    lemma_slot_fields(a, b, Index::Second);
    lemma_slot_fields(a, b, Index::Third);
    lemma_slot_fields(a, b, Index::Fourth);
    lemma_word_of_fields(a, b);
}

/// Two words whose views agree hold the same flags and codes for the slot
/// `index`.
proof fn lemma_slot_fields(a: u64, b: u64, index: Index)
    requires
        control_view(a) == control_view(b),
    ensures
        bit_at(a, local_offset(index)) == bit_at(b, local_offset(index)),
        bit_at(a, global_offset(index)) == bit_at(b, global_offset(index)),
        pair_at(a, condition_offset(index)) == pair_at(b, condition_offset(index)),
        pair_at(a, size_offset(index)) == pair_at(b, size_offset(index)),
{
    let i = index.ordinal();
    assert(Index::of_ordinal(i) == index);
    assert(control_view(a).slots[i] == slot_control(a, index));
    assert(control_view(b).slots[i] == slot_control(b, index));
    lemma_pair_is_code(a, condition_offset(index));
    lemma_pair_is_code(b, condition_offset(index));
    lemma_pair_is_code(a, size_offset(index));
    lemma_pair_is_code(b, size_offset(index));
}

proof fn lemma_pair_is_code(word: u64, offset: u64)
    by (bit_vector)
    ensures
        (((word >> offset) & 3) as u8) < 4,
{
}

proof fn lemma_word_of_fields(a: u64, b: u64)
    by (bit_vector)
    requires
        (a & (1u64 << 0u64) != 0) == (b & (1u64 << 0u64) != 0),
        (a & (1u64 << 1u64) != 0) == (b & (1u64 << 1u64) != 0),
        (a & (1u64 << 2u64) != 0) == (b & (1u64 << 2u64) != 0),
        (a & (1u64 << 3u64) != 0) == (b & (1u64 << 3u64) != 0),
        (a & (1u64 << 4u64) != 0) == (b & (1u64 << 4u64) != 0),
        (a & (1u64 << 5u64) != 0) == (b & (1u64 << 5u64) != 0),
        (a & (1u64 << 6u64) != 0) == (b & (1u64 << 6u64) != 0),
        (a & (1u64 << 7u64) != 0) == (b & (1u64 << 7u64) != 0),
        (((a >> 8u64) & 0xff) as u8) == (((b >> 8u64) & 0xff) as u8),
        (((a >> 16u64) & 3) as u8) == (((b >> 16u64) & 3) as u8),
        (((a >> 18u64) & 3) as u8) == (((b >> 18u64) & 3) as u8),
        (((a >> 20u64) & 3) as u8) == (((b >> 20u64) & 3) as u8),
        (((a >> 22u64) & 3) as u8) == (((b >> 22u64) & 3) as u8),
        (((a >> 24u64) & 3) as u8) == (((b >> 24u64) & 3) as u8),
        (((a >> 26u64) & 3) as u8) == (((b >> 26u64) & 3) as u8),
        (((a >> 28u64) & 3) as u8) == (((b >> 28u64) & 3) as u8),
        (((a >> 30u64) & 3) as u8) == (((b >> 30u64) & 3) as u8),
        ((a >> 32u64) as u32) == ((b >> 32u64) as u32),
    ensures
        a == b,
{
}

/// The debug control register, over a word held by value or over a reference
/// to one.
///
/// A word held by value, or reached through a shared reference, can be read.
/// One held by value can also be changed, and so can one that was lent, which
/// has the same methods written out for each width: their contracts say one
/// thing more, that the lender finds the word as the call leaves it.
#[derive(Copy, Clone, PartialEq, Eq)]
pub struct Dr7<T>(pub T);

impl<T: ReadWord> Dr7<T> {
    /// What the register holds.
    pub open spec fn view(&self) -> ControlView {
        control_view(self.0.value())
    }

    /// Returns whether the breakpoint of the slot `index` is enabled for the
    /// current task.
    #[must_use]
    pub fn enabled_local(&self, index: Index) -> (enabled: bool)
        ensures
            enabled == self@.slot(index).enabled_local,
    {
        test_bit(self.0.read(), local_shift(index))
    }

    /// Returns whether the breakpoint of the slot `index` is enabled for
    /// every task.
    #[must_use]
    pub fn enabled_global(&self, index: Index) -> (enabled: bool)
        ensures
            enabled == self@.slot(index).enabled_global,
    {
        test_bit(self.0.read(), global_shift(index))
    }

    /// Returns the condition of the slot `index`. Every pattern of its two
    /// bits is a condition.
    #[must_use]
    pub fn condition(&self, index: Index) -> (condition: Condition)
        ensures
            condition == self@.slot(index).condition,
    {
        Condition::from_bits(read_pair(self.0.read(), condition_shift(index))).unwrap()
    }

    /// Returns the size of the slot `index`. Every pattern of its two bits
    /// is a size.
    #[must_use]
    pub fn size(&self, index: Index) -> (size: Size)
        ensures
            size == self@.slot(index).size,
    {
        Size::from_bits(read_pair(self.0.read(), size_shift(index))).unwrap()
    }
}

impl<T: WriteWord> Dr7<T> {
    /// Enables or disables the breakpoint of the slot `index` for the
    /// current task. Nothing else in the register changes.
    pub fn set_enabled_local(&mut self, index: Index, enabled: bool)
        ensures
            final(self)@ == old(self)@.with_enabled_local(index, enabled),
    {
        put_enabled_local(&mut self.0, index, enabled);
    }

    /// Enables or disables the breakpoint of the slot `index` for every
    /// task. Nothing else in the register changes.
    pub fn set_enabled_global(&mut self, index: Index, enabled: bool)
        ensures
            final(self)@ == old(self)@.with_enabled_global(index, enabled),
    {
        put_enabled_global(&mut self.0, index, enabled);
    }

    /// Sets the condition of the slot `index`. Nothing else in the register
    /// changes.
    pub fn set_condition(&mut self, index: Index, condition: Condition)
        ensures
            final(self)@ == old(self)@.with_condition(index, condition),
    {
        put_condition(&mut self.0, index, condition);
    }

    /// Sets the size of the slot `index`. Nothing else in the register
    /// changes.
    pub fn set_size(&mut self, index: Index, size: Size)
        ensures
            final(self)@ == old(self)@.with_size(index, size),
    {
        put_size(&mut self.0, index, size);
    }

    /// Switches every slot off. The reserved flags of bits 8 to 15 stay, and
    /// nothing else does.
    pub fn clear_breakpoints(&mut self)
        ensures
            final(self)@ == old(self)@.cleared(),
    {
        put_all_off(&mut self.0);
    }

    /// Switches the slot `index` off: neither enabled flag set, and the
    /// condition and the size whose codes are zero. Nothing else in the
    /// register changes.
    pub fn clear_breakpoint(&mut self, index: Index)
        ensures
            final(self)@ == old(self)@.without(index),
    {
        put_off(&mut self.0, index);
    }
}

impl<'a> Dr7<&'a mut u32> {
    /// Enables or disables the breakpoint of the slot `index` for the
    /// current task, in the word that was lent. Nothing else in the word
    /// changes, and the lender finds it as this call leaves it.
    pub fn set_enabled_local(&mut self, index: Index, enabled: bool)
        ensures
            final(self)@ == old(self)@.with_enabled_local(index, enabled),
            *final(final(self).0) == *final(old(self).0),
    {
        put_enabled_local(self.0, index, enabled);
    }

    /// Enables or disables the breakpoint of the slot `index` for every
    /// task, in the word that was lent. Nothing else in the word changes,
    /// and the lender finds it as this call leaves it.
    pub fn set_enabled_global(&mut self, index: Index, enabled: bool)
        ensures
            final(self)@ == old(self)@.with_enabled_global(index, enabled),
            *final(final(self).0) == *final(old(self).0),
    {
        put_enabled_global(self.0, index, enabled);
    }

    /// Sets the condition of the slot `index` in the word that was lent.
    /// Nothing else in the word changes, and the lender finds it as this
    /// call leaves it.
    pub fn set_condition(&mut self, index: Index, condition: Condition)
        ensures
            final(self)@ == old(self)@.with_condition(index, condition),
            *final(final(self).0) == *final(old(self).0),
    {
        put_condition(self.0, index, condition);
    }

    /// Sets the size of the slot `index` in the word that was lent. Nothing
    /// else in the word changes, and the lender finds it as this call leaves
    /// it.
    pub fn set_size(&mut self, index: Index, size: Size)
        ensures
            final(self)@ == old(self)@.with_size(index, size),
            *final(final(self).0) == *final(old(self).0),
    {
        put_size(self.0, index, size);
    }

    /// Switches every slot off in the word that was lent. The reserved flags
    /// of bits 8 to 15 stay, and nothing else does. The lender finds the
    /// word as this call leaves it.
    pub fn clear_breakpoints(&mut self)
        ensures
            final(self)@ == old(self)@.cleared(),
            *final(final(self).0) == *final(old(self).0),
    {
        put_all_off(self.0);
    }

    /// Switches the slot `index` off in the word that was lent: neither
    /// enabled flag set, and the condition and the size whose codes are
    /// zero. Nothing else in the word changes, and the lender finds it as
    /// this call leaves it.
    pub fn clear_breakpoint(&mut self, index: Index)
        ensures
            final(self)@ == old(self)@.without(index),
            *final(final(self).0) == *final(old(self).0),
    {
        put_off(self.0, index);
    }
}

impl<'a> Dr7<&'a mut u64> {
    /// Enables or disables the breakpoint of the slot `index` for the
    /// current task, in the word that was lent. Nothing else in the word
    /// changes, and the lender finds it as this call leaves it.
    pub fn set_enabled_local(&mut self, index: Index, enabled: bool)
        ensures
            final(self)@ == old(self)@.with_enabled_local(index, enabled),
            *final(final(self).0) == *final(old(self).0),
    {
        put_enabled_local(self.0, index, enabled);
    }

    /// Enables or disables the breakpoint of the slot `index` for every
    /// task, in the word that was lent. Nothing else in the word changes,
    /// and the lender finds it as this call leaves it.
    pub fn set_enabled_global(&mut self, index: Index, enabled: bool)
        ensures
            final(self)@ == old(self)@.with_enabled_global(index, enabled),
            *final(final(self).0) == *final(old(self).0),
    {
        put_enabled_global(self.0, index, enabled);
    }

    /// Sets the condition of the slot `index` in the word that was lent.
    /// Nothing else in the word changes, and the lender finds it as this
    /// call leaves it.
    pub fn set_condition(&mut self, index: Index, condition: Condition)
        ensures
            final(self)@ == old(self)@.with_condition(index, condition),
            *final(final(self).0) == *final(old(self).0),
    {
        put_condition(self.0, index, condition);
    }

    /// Sets the size of the slot `index` in the word that was lent. Nothing
    /// else in the word changes, and the lender finds it as this call leaves
    /// it.
    pub fn set_size(&mut self, index: Index, size: Size)
        ensures
            final(self)@ == old(self)@.with_size(index, size),
            *final(final(self).0) == *final(old(self).0),
    {
        put_size(self.0, index, size);
    }

    /// Switches every slot off in the word that was lent. The reserved flags
    /// of bits 8 to 15 stay, and nothing else does. The lender finds the
    /// word as this call leaves it.
    pub fn clear_breakpoints(&mut self)
        ensures
            final(self)@ == old(self)@.cleared(),
            *final(final(self).0) == *final(old(self).0),
    {
        put_all_off(self.0);
    }

    /// Switches the slot `index` off in the word that was lent: neither
    /// enabled flag set, and the condition and the size whose codes are
    /// zero. Nothing else in the word changes, and the lender finds it as
    /// this call leaves it.
    pub fn clear_breakpoint(&mut self, index: Index)
        ensures
            final(self)@ == old(self)@.without(index),
            *final(final(self).0) == *final(old(self).0),
    {
        put_off(self.0, index);
    }
}

impl<'a> Dr7<&'a mut usize> {
    /// Enables or disables the breakpoint of the slot `index` for the
    /// current task, in the word that was lent. Nothing else in the word
    /// changes, and the lender finds it as this call leaves it.
    pub fn set_enabled_local(&mut self, index: Index, enabled: bool)
        ensures
            final(self)@ == old(self)@.with_enabled_local(index, enabled),
            *final(final(self).0) == *final(old(self).0),
    {
        put_enabled_local(self.0, index, enabled);
    }

    /// Enables or disables the breakpoint of the slot `index` for every
    /// task, in the word that was lent. Nothing else in the word changes,
    /// and the lender finds it as this call leaves it.
    pub fn set_enabled_global(&mut self, index: Index, enabled: bool)
        ensures
            final(self)@ == old(self)@.with_enabled_global(index, enabled),
            *final(final(self).0) == *final(old(self).0),
    {
        put_enabled_global(self.0, index, enabled);
    }

    /// Sets the condition of the slot `index` in the word that was lent.
    /// Nothing else in the word changes, and the lender finds it as this
    /// call leaves it.
    pub fn set_condition(&mut self, index: Index, condition: Condition)
        ensures
            final(self)@ == old(self)@.with_condition(index, condition),
            *final(final(self).0) == *final(old(self).0),
    {
        put_condition(self.0, index, condition);
    }

    /// Sets the size of the slot `index` in the word that was lent. Nothing
    /// else in the word changes, and the lender finds it as this call leaves
    /// it.
    pub fn set_size(&mut self, index: Index, size: Size)
        ensures
            final(self)@ == old(self)@.with_size(index, size),
            *final(final(self).0) == *final(old(self).0),
    {
        put_size(self.0, index, size);
    }

    /// Switches every slot off in the word that was lent. The reserved flags
    /// of bits 8 to 15 stay, and nothing else does. The lender finds the
    /// word as this call leaves it.
    pub fn clear_breakpoints(&mut self)
        ensures
            final(self)@ == old(self)@.cleared(),
            *final(final(self).0) == *final(old(self).0),
    {
        put_all_off(self.0);
    }

    /// Switches the slot `index` off in the word that was lent: neither
    /// enabled flag set, and the condition and the size whose codes are
    /// zero. Nothing else in the word changes, and the lender finds it as
    /// this call leaves it.
    pub fn clear_breakpoint(&mut self, index: Index)
        ensures
            final(self)@ == old(self)@.without(index),
            *final(final(self).0) == *final(old(self).0),
    {
        put_off(self.0, index);
    }
}

} // verus!
