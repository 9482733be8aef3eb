//! The register snapshot of a thread, and the ways to fetch one from a thread
//! and to apply one to it.
//!
//! Nothing here reaches a thread by itself. A strategy, [`FetchWith`] or
//! [`ApplyWith`], says which request goes to the operating system and what
//! the value that comes back means; the caller makes the request. Whoever can
//! make it implements [`FetchContext`] and [`ApplyContext`].
use vstd::prelude::*;

use crate::enums::Index;
use crate::error::HwbpError;
use crate::hwbp::Hwbp;
use crate::registers::{control_view, status_view, ControlView, SlotControl};

verus! {

/// The context flags that select the debug registers on a 64-bit processor.
pub const CONTEXT_DEBUG_REGISTERS_AMD64: u32 = 0x0010_0010;

/// The context flags that select the debug registers on a 32-bit processor.
pub const CONTEXT_DEBUG_REGISTERS_I386: u32 = 0x0001_0010;

/// The handle that stands for the calling thread.
pub const CURRENT_THREAD: isize = -2;

/// What a snapshot of a thread's registers holds of its debug registers,
/// beside the flags that say which parts of the whole snapshot are meant.
#[derive(Copy, Clone, Debug, PartialEq, Eq, Structural)]
pub struct Context {
    /// Selects the parts of the thread's context that are fetched or applied.
    pub context_flags: u32,
    /// The address of the first breakpoint.
    pub dr0: usize,
    /// The address of the second breakpoint.
    pub dr1: usize,
    /// The address of the third breakpoint.
    pub dr2: usize,
    /// The address of the fourth breakpoint.
    pub dr3: usize,
    /// The status register.
    pub dr6: usize,
    /// The control register.
    pub dr7: usize,
}

/// The context flags that select the debug registers alone, for the width of
/// this processor's words.
pub open spec fn debug_registers_flags() -> u32 {
    if usize::BITS == 64 {
        CONTEXT_DEBUG_REGISTERS_AMD64
    } else {
        CONTEXT_DEBUG_REGISTERS_I386
    }
}

impl Context {
    /// The snapshot that a fetch starts from: every register zero, and the
    /// flags asking for the debug registers alone.
    pub open spec fn request() -> Context {
        Context {
            context_flags: debug_registers_flags(),
            dr0: 0,
            dr1: 0,
            dr2: 0,
            dr3: 0,
            dr6: 0,
            dr7: 0,
        }
    }

    /// Returns the snapshot that a fetch starts from.
    pub fn debug_registers() -> (context: Context)
        ensures
            context == Context::request(),
    {
        let context_flags: u32 = if usize::BITS == 64 {
            CONTEXT_DEBUG_REGISTERS_AMD64
        } else {
            CONTEXT_DEBUG_REGISTERS_I386
        };
        Context { context_flags, dr0: 0, dr1: 0, dr2: 0, dr3: 0, dr6: 0, dr7: 0 }
    }
}

/// What a snapshot holds: the flags, the four breakpoint addresses in the
/// order of their slots, the status word, and the control register by what it
/// says of each slot.
pub struct ContextView {
    /// Selects the parts of the thread's context that are fetched or applied.
    pub context_flags: u32,
    /// The addresses of the four breakpoints.
    pub addresses: Seq<usize>,
    /// The status register.
    pub status: usize,
    /// The control register.
    pub control: ControlView,
}

impl View for Context {
    type V = ContextView;

    open spec fn view(&self) -> ContextView {
        ContextView {
            context_flags: self.context_flags,
            addresses: seq![self.dr0, self.dr1, self.dr2, self.dr3],
            status: self.dr6,
            control: control_view(self.dr7 as u64),
        }
    }
}

/// The test that picks the breakpoints that watch `address`.
pub open spec fn watching(address: usize) -> spec_fn(Hwbp) -> bool {
    |bp: Hwbp| bp.covers(address)
}

/// The test that picks the breakpoints whose hit flag is set in the status
/// word `dr6`.
pub open spec fn hit_by(dr6: usize) -> spec_fn(Hwbp) -> bool {
    |bp: Hwbp| status_view(dr6 as u64).hit(bp.index)
}

impl ContextView {
    /// The breakpoint that the snapshot holds in the slot `index`: the
    /// address of the slot, and from the control register its local-enable
    /// flag, its size and its condition.
    pub open spec fn breakpoint(self, index: Index) -> Hwbp {
        Hwbp {
            enabled: self.control.slot(index).enabled_local,
            index,
            address: self.addresses[index.ordinal()],
            size: self.control.slot(index).size,
            condition: self.control.slot(index).condition,
        }
    }

    /// The four breakpoints of the snapshot, in the order of their slots.
    pub open spec fn breakpoints(self) -> Seq<Hwbp> {
        Seq::new(4, |i: int| self.breakpoint(Index::of_ordinal(i)))
    }

    /// The snapshot after `bp` was written to it: the address of its slot is
    /// that of `bp`, and so are the slot's local-enable flag, condition and
    /// size. The slot's global-enable flag and everything else stay.
    pub open spec fn with_breakpoint(self, bp: Hwbp) -> ContextView {
        ContextView {
            addresses: self.addresses.update(bp.index.ordinal(), bp.address),
            control: self.control.with_slot(
                bp.index,
                SlotControl {
                    enabled_local: bp.enabled,
                    condition: bp.condition,
                    size: bp.size,
                    ..self.control.slot(bp.index)
                },
            ),
            ..self
        }
    }

    /// The snapshot after its breakpoints were cleared: every address zero
    /// and every slot of the control register switched off. The flags, the
    /// status word and the reserved flags of the control register stay.
    pub open spec fn cleared(self) -> ContextView {
        ContextView {
            addresses: Seq::new(4, |i: int| 0usize),
            control: self.control.cleared(),
            ..self
        }
    }

    /// Whether `bp` is the first breakpoint of the snapshot that is not
    /// enabled, going up from the first slot.
    pub open spec fn first_unused(self, bp: Hwbp) -> bool {
        &&& bp == self.breakpoint(bp.index)
        &&& !bp.enabled
        &&& forall|lower: Index|
            lower.ordinal() < bp.index.ordinal() ==> (#[trigger] self.breakpoint(lower)).enabled
    }

    /// Whether every breakpoint of the snapshot is enabled.
    pub open spec fn all_used(self) -> bool {
        forall|index: Index| (#[trigger] self.breakpoint(index)).enabled
    }

    /// The breakpoints of the snapshot that watch `address`, enabled or not,
    /// in the order of their slots.
    pub open spec fn covering(self, address: usize) -> Seq<Hwbp> {
        self.breakpoints().filter(watching(address))
    }

    /// The breakpoints of the snapshot whose hit flag is set in the status
    /// word `dr6`, in the order of their slots.
    pub open spec fn hit(self, dr6: usize) -> Seq<Hwbp> {
        self.breakpoints().filter(hit_by(dr6))
    }
}

/// A way to fill a snapshot from a thread.
pub trait FetchContext {
    /// Whether fetching into `before` may leave `after` and return `result`.
    /// An implementation that says nothing of itself may do anything.
    open spec fn fetches(
        &self,
        before: Context,
        after: Context,
        result: Result<(), HwbpError>,
    ) -> bool {
        true
    }

    /// Fills `context` from the thread, or fails.
    fn fetch_context(self, context: &mut Context) -> (result: Result<(), HwbpError>)
        ensures
            self.fetches(*old(context), *final(context), result),
    ;
}

/// A way to push a snapshot back to a thread.
pub trait ApplyContext {
    /// Whether applying `context` may return `result`. An implementation
    /// that says nothing of itself may return anything.
    open spec fn applies(&self, context: Context, result: Result<(), HwbpError>) -> bool {
        true
    }

    /// Makes `context` the thread's registers, or fails.
    fn apply_context(self, context: &Context) -> (result: Result<(), HwbpError>)
        ensures
            self.applies(*context, result),
    ;
}

/// The request that a fetch makes to the operating system.
#[derive(Copy, Clone, Debug, PartialEq, Eq, Structural)]
pub enum FetchRequest {
    /// Query the context of `thread`.
    ThreadContext { thread: isize },
    /// Capture the context of the caller in place.
    CaptureContext,
}

/// The request that an apply makes to the operating system.
#[derive(Copy, Clone, Debug, PartialEq, Eq, Structural)]
pub enum ApplyRequest {
    /// Set the context of `thread`.
    ThreadContext { thread: isize },
    /// Restore execution from the context. Control does not come back where
    /// this succeeds.
    RestoreContext,
    /// Continue from an exception with the context, testing for an alert
    /// where `test_alert` is set. Control does not come back where this
    /// succeeds.
    Continue { test_alert: bool },
}

/// How a snapshot is fetched.
#[derive(Copy, Clone, Debug, PartialEq, Eq, Structural)]
pub enum FetchWith {
    /// Query the context of the calling thread.
    GetThreadContext,
    /// Query the context of the thread with this handle.
    GetThreadContextOther(isize),
    /// Capture the calling context directly. This cannot fail.
    RtlCaptureContext,
}

/// How a snapshot is applied.
#[derive(Copy, Clone, Debug, PartialEq, Eq, Structural)]
pub enum ApplyWith {
    /// Set the context of the calling thread.
    SetThreadContext,
    /// Set the context of the thread with this handle.
    SetThreadContextOther(isize),
    /// Restore execution directly from the context.
    RtlRestoreContext,
    /// Continue from an exception with the context.
    NtContinue,
}

/// Returns the handle that stands for the calling thread.
pub fn current_thread() -> (thread: isize)
    ensures
        thread == CURRENT_THREAD,
{
    CURRENT_THREAD
}

impl FetchWith {
    /// The request that this strategy makes.
    pub open spec fn spec_request(self) -> FetchRequest {
        match self {
            FetchWith::GetThreadContext => FetchRequest::ThreadContext { thread: CURRENT_THREAD },
            FetchWith::GetThreadContextOther(thread) => FetchRequest::ThreadContext { thread },
            FetchWith::RtlCaptureContext => FetchRequest::CaptureContext,
        }
    }

    /// Whether the value `returned` by the operating system means that the
    /// snapshot was filled. A query fails where it returns zero; a capture
    /// returns nothing and cannot fail.
    pub open spec fn fetched(self, returned: i32) -> bool {
        match self {
            FetchWith::GetThreadContext | FetchWith::GetThreadContextOther(_) => returned != 0,
            FetchWith::RtlCaptureContext => true,
        }
    }

    /// Returns the request to make to the operating system.
    pub fn request(self) -> (request: FetchRequest)
        ensures
            request == self.spec_request(),
    {
        match self {
            FetchWith::GetThreadContext => FetchRequest::ThreadContext { thread: current_thread() },
            FetchWith::GetThreadContextOther(thread) => FetchRequest::ThreadContext { thread },
            FetchWith::RtlCaptureContext => FetchRequest::CaptureContext,
        }
    }

    /// Returns what the fetch comes to, given the value `returned` by the
    /// operating system for the request (anything, where it returns nothing).
    pub fn fetch_result(self, returned: i32) -> (result: Result<(), HwbpError>)
        ensures
            self.fetched(returned) ==> result == Ok::<(), HwbpError>(()),
            !self.fetched(returned) ==> result == Err::<(), HwbpError>(
                HwbpError::FailedFetchContext,
            ),
    {
        match self {
            FetchWith::RtlCaptureContext => Ok(()),
            FetchWith::GetThreadContext => match returned {
                0 => Err(HwbpError::FailedFetchContext),
                _ => Ok(()),
            },
            FetchWith::GetThreadContextOther(_) => match returned {
                0 => Err(HwbpError::FailedFetchContext),
                _ => Ok(()),
            },
        }
    }
}

impl ApplyWith {
    /// The request that this strategy makes.
    pub open spec fn spec_request(self) -> ApplyRequest {
        match self {
            ApplyWith::SetThreadContext => ApplyRequest::ThreadContext { thread: CURRENT_THREAD },
            ApplyWith::SetThreadContextOther(thread) => ApplyRequest::ThreadContext { thread },
            ApplyWith::RtlRestoreContext => ApplyRequest::RestoreContext,
            ApplyWith::NtContinue => ApplyRequest::Continue { test_alert: true },
        }
    }

    /// Whether the value `returned` by the operating system means that the
    /// snapshot was taken. Setting a thread's context fails where it returns
    /// zero. A restore returns nothing: where control comes back at all, that
    /// counts as success. A continue returns a status, and a negative status
    /// is a failure.
    pub open spec fn applied(self, returned: i32) -> bool {
        match self {
            ApplyWith::SetThreadContext | ApplyWith::SetThreadContextOther(_) => returned != 0,
            ApplyWith::RtlRestoreContext => true,
            ApplyWith::NtContinue => returned >= 0,
        }
    }

    /// Returns the request to make to the operating system.
    pub fn request(self) -> (request: ApplyRequest)
        ensures
            request == self.spec_request(),
    {
        match self {
            ApplyWith::SetThreadContext => ApplyRequest::ThreadContext { thread: current_thread() },
            ApplyWith::SetThreadContextOther(thread) => ApplyRequest::ThreadContext { thread },
            ApplyWith::RtlRestoreContext => ApplyRequest::RestoreContext,
            ApplyWith::NtContinue => ApplyRequest::Continue { test_alert: true },
        }
    }

    /// Returns what the apply comes to, given the value `returned` by the
    /// operating system for the request (anything, where it returns nothing).
    pub fn apply_result(self, returned: i32) -> (result: Result<(), HwbpError>)
        ensures
            self.applied(returned) ==> result == Ok::<(), HwbpError>(()),
            !self.applied(returned) ==> result == Err::<(), HwbpError>(
                HwbpError::FailedApplyContext,
            ),
    {
        match self {
            ApplyWith::SetThreadContext => match returned {
                0 => Err(HwbpError::FailedApplyContext),
                _ => Ok(()),
            },
            ApplyWith::SetThreadContextOther(_) => match returned {
                0 => Err(HwbpError::FailedApplyContext),
                _ => Ok(()),
            },
            ApplyWith::RtlRestoreContext => Ok(()),
            ApplyWith::NtContinue => if returned >= 0 {
                Ok(())
            } else {
                Err(HwbpError::FailedApplyContext)
            },
        }
    }
}

} // verus!
