//! The flags register, of which the trap flag and the resume flag matter to
//! debugging: bit 8 makes the processor stop after the next instruction, and
//! bit 16 lets it pass an instruction breakpoint once.
use vstd::prelude::*;

use crate::bits::{bit_at, test_bit};
use crate::registers::word::{ReadWord, WriteWord};

verus! {

/// The trap flag of the flags register: bit 8.
pub const TRAP_FLAG: u64 = 0x100;

/// The resume flag of the flags register: bit 16.
pub const RESUME_FLAG: u64 = 0x1_0000;

proof fn lemma_flag_raised(word: u64, raise: u64, offset: u64, r: u64)
    by (bit_vector)
    requires
        raise < 2,
        offset == 8 || offset == 16,
        r == word | (raise << offset),
    ensures
        raise == 0 ==> r == word,
        raise == 1 && offset == 8 ==> r == word | 0x100,
        raise == 1 && offset == 16 ==> r == word | 0x1_0000,
        word <= 0xffff_ffff ==> r <= 0xffff_ffff,
        r & (1u64 << offset) != 0 <==> (raise == 1 || word & (1u64 << offset) != 0),
{
}

/// Sets the flag at `offset` in the word that `storage` holds where `raise`
/// holds, and leaves the word as it is where not: a flag that is set stays
/// set.
fn raise_flag<W: WriteWord>(storage: &mut W, offset: u32, raise: bool)
    requires
        offset == 8 || offset == 16,
    ensures
        final(storage).value() == if !raise {
            old(storage).value()
        } else if offset == 8 {
            old(storage).value() | TRAP_FLAG
        } else {
            old(storage).value() | RESUME_FLAG
        },
        bit_at(final(storage).value(), offset as u64) == (raise || bit_at(
            old(storage).value(),
            offset as u64,
        )),
{
    proof {
        storage.lemma_width();
    }
    let word = storage.read();
    let flag: u64 = if raise {
        1
    } else {
        0
    };
    let r = word | (flag << offset);
    proof {
        lemma_flag_raised(word, flag, offset as u64, r);
    }
    storage.write(r);
}

/// The flags register.
#[derive(Copy, Clone, PartialEq, Eq)]
pub struct EFlags<T>(pub T);

impl<T: ReadWord> EFlags<T> {
    /// Whether the trap flag is set.
    pub open spec fn spec_trap(&self) -> bool {
        bit_at(self.0.value(), 8)
    }

    /// Whether the resume flag is set.
    pub open spec fn spec_resume(&self) -> bool {
        bit_at(self.0.value(), 16)
    }

    /// Returns whether the trap flag is set.
    #[must_use]
    pub fn trap(&self) -> (set: bool)
        ensures
            set == self.spec_trap(),
    {
        test_bit(self.0.read(), 8)
    }

    /// Returns whether the resume flag is set.
    #[must_use]
    pub fn resume(&self) -> (set: bool)
        ensures
            set == self.spec_resume(),
    {
        test_bit(self.0.read(), 16)
    }
}

impl<T: WriteWord> EFlags<T> {
    /// Sets the trap flag where `value` holds. A flag that is set stays set,
    /// and no other bit changes.
    pub fn set_trap(&mut self, value: bool)
        ensures
            final(self).0.value() == if value {
                old(self).0.value() | TRAP_FLAG
            } else {
                old(self).0.value()
            },
            final(self).spec_trap() == (value || old(self).spec_trap()),
    {
        raise_flag(&mut self.0, 8, value);
    }

    /// Sets the resume flag where `value` holds. A flag that is set stays set,
    /// and no other bit changes.
    pub fn set_resume(&mut self, value: bool)
        ensures
            final(self).0.value() == if value {
                old(self).0.value() | RESUME_FLAG
            } else {
                old(self).0.value()
            },
            final(self).spec_resume() == (value || old(self).spec_resume()),
    {
        raise_flag(&mut self.0, 16, value);
    }
}

impl<'a> EFlags<&'a mut u32> {
    /// Sets the trap flag in the word that was lent where `value` holds. A
    /// flag that is set stays set, and no other bit changes. The lender
    /// finds the word as this call leaves it.
    pub fn set_trap(&mut self, value: bool)
        ensures
            final(self).0.value() == if value {
                old(self).0.value() | TRAP_FLAG
            } else {
                old(self).0.value()
            },
            final(self).spec_trap() == (value || old(self).spec_trap()),
            *final(final(self).0) == *final(old(self).0),
    {
        raise_flag(self.0, 8, value);
    }

    /// Sets the resume flag in the word that was lent where `value` holds. A
    /// flag that is set stays set, and no other bit changes. The lender
    /// finds the word as this call leaves it.
    pub fn set_resume(&mut self, value: bool)
        ensures
            final(self).0.value() == if value {
                old(self).0.value() | RESUME_FLAG
            } else {
                old(self).0.value()
            },
            final(self).spec_resume() == (value || old(self).spec_resume()),
            *final(final(self).0) == *final(old(self).0),
    {
        raise_flag(self.0, 16, value);
    }
}

} // verus!
