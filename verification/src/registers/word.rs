//! The storage of a register word.
//!
//! A register is laid over a word of 32 or 64 bits, held by value or reached
//! through a reference. [`ReadWord`] is what all of these have in common;
//! [`WriteWord`] is a word held by value, which can be overwritten.
use vstd::prelude::*;

verus! {

/// Storage from which one register word can be read: the word itself, held
/// as `u32`, `u64` or `usize`, or a reference to one.
pub trait ReadWord {
    /// The word that the storage holds, taken as a `u64`.
    spec fn value(&self) -> u64;

    /// Returns the word that the storage holds.
    fn read(&self) -> (word: u64)
        ensures
            word == self.value(),
    ;
}

/// A register word held by value, which can be overwritten.
pub trait WriteWord: ReadWord {
    /// The largest word that the storage can hold.
    spec fn limit() -> u64;

    /// The storage is 32 or 64 bits wide, and what it holds fits in it.
    proof fn lemma_width(&self)
        ensures
            self.value() <= Self::limit(),
            Self::limit() == u32::MAX || Self::limit() == u64::MAX,
    ;

    /// Puts `word` in the storage.
    fn write(&mut self, word: u64)
        requires
            word <= Self::limit(),
        ensures
            final(self).value() == word,
    ;
}

impl ReadWord for u32 {
    open spec fn value(&self) -> u64 {
        *self as u64
    }

    fn read(&self) -> (word: u64) {
        *self as u64
    }
}

impl ReadWord for u64 {
    open spec fn value(&self) -> u64 {
        *self
    }

    fn read(&self) -> (word: u64) {
        *self
    }
}

impl ReadWord for usize {
    open spec fn value(&self) -> u64 {
        *self as u64
    }

    fn read(&self) -> (word: u64) {
        *self as u64
    }
}

impl<'a> ReadWord for &'a u32 {
    open spec fn value(&self) -> u64 {
        **self as u64
    }

    fn read(&self) -> (word: u64) {
        **self as u64
    }
}

impl<'a> ReadWord for &'a u64 {
    open spec fn value(&self) -> u64 {
        **self
    }

    fn read(&self) -> (word: u64) {
        **self
    }
}

impl<'a> ReadWord for &'a usize {
    open spec fn value(&self) -> u64 {
        **self as u64
    }

    fn read(&self) -> (word: u64) {
        **self as u64
    }
}

impl<'a> ReadWord for &'a mut u32 {
    open spec fn value(&self) -> u64 {
        **self as u64
    }

    fn read(&self) -> (word: u64) {
        **self as u64
    }
}

impl<'a> ReadWord for &'a mut u64 {
    open spec fn value(&self) -> u64 {
        **self
    }

    fn read(&self) -> (word: u64) {
        **self
    }
}

impl<'a> ReadWord for &'a mut usize {
    open spec fn value(&self) -> u64 {
        **self as u64
    }

    fn read(&self) -> (word: u64) {
        **self as u64
    }
}

impl WriteWord for u32 {
    open spec fn limit() -> u64 {
        u32::MAX as u64
    }

    proof fn lemma_width(&self) {
    }

    fn write(&mut self, word: u64) {
        *self = word as u32;
    }
}

impl WriteWord for u64 {
    open spec fn limit() -> u64 {
        u64::MAX
    }

    proof fn lemma_width(&self) {
    }

    fn write(&mut self, word: u64) {
        *self = word;
    }
}

impl WriteWord for usize {
    open spec fn limit() -> u64 {
        usize::MAX as u64
    }

    proof fn lemma_width(&self) {
    }

    fn write(&mut self, word: u64) {
        *self = word as usize;
    }
}

} // verus!
