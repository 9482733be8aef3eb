//! Per-thread hardware breakpoints held in the debug registers.
//!
//! A [`Hwbp`] describes one breakpoint: its slot, address, span, trigger
//! condition and whether it is enabled. A [`HwbpContext`] holds a snapshot of a
//! thread's debug registers and reads and writes breakpoints in it. The
//! [`registers`] module packs and unpacks the control and status registers,
//! and [`context`] names the ways a snapshot is fetched from a thread and
//! applied to it.
//!
//! Everything here works on values in memory. Reaching the live thread is the
//! caller's part: it implements [`context::FetchContext`] and
//! [`context::ApplyContext`] over the operating system's primitives.
//!
//! ```
//! use hwbp::context::Context;
//! use hwbp::{Condition, HwbpContext, Index, Size};
//!
//! let mut context = HwbpContext::from_context(Context::debug_registers());
//!
//! // Take the first breakpoint that is not in use and configure it.
//! let bp = context
//!     .unused_breakpoint()
//!     .expect("all breakpoints are in use")
//!     .with_address(0x7ff6_1000)
//!     .with_size(Size::Four)
//!     .with_condition(Condition::Write)
//!     .with_enabled(true); // <- Don't forget this one!
//!
//! // Write it to the snapshot. Applying the snapshot makes it live.
//! context.set_breakpoint(bp);
//! assert_eq!(context.breakpoint(Index::First), bp);
//! ```
//!
//! A breakpoint that was hit raises a debug exception. Its handler asks the
//! snapshot it was given which breakpoints the status register names, with
//! [`HwbpContext::breakpoints_by_dr6`], and resets the status register before
//! it returns, since the processor does not.
pub mod bits;
pub mod context;
pub mod enums;
pub mod error;
pub mod hwbp;
pub mod hwbp_context;
pub mod raw;
pub mod registers;

pub use crate::enums::{Condition, Index, Size};
pub use crate::error::HwbpError;
pub use crate::hwbp::Hwbp;
pub use crate::hwbp_context::HwbpContext;
