//! The debug control register, the debug status register and the flags
//! register, laid over one word each.
//!
//! [`Dr7`], [`Dr6`] and [`EFlags`] wrap the word itself or a reference to it.
//! What a word means is said once, by [`control_view`] and [`status_view`];
//! the methods read and change the word so that its view reads or changes as
//! their contracts say.
pub mod control;
pub mod flags;
pub mod status;
pub mod word;

pub use self::control::{
    condition_offset, control_view, global_offset, lemma_control_view_injective, local_offset,
    size_offset, slot_control, ControlView, Dr7, SlotControl, RESERVED_FLAGS,
};
pub use self::flags::{EFlags, RESUME_FLAG, TRAP_FLAG};
pub use self::status::{
    lemma_hit_is_the_flag, lemma_reset_is_idempotent, reset_status, status_view, Dr6, StatusView,
    STATUS_IDLE,
};
pub use self::word::{ReadWord, WriteWord};
