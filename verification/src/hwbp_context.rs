//! A snapshot of a thread's registers, wrapped for work on its breakpoints.
use vstd::prelude::*;

use crate::context::{ApplyContext, Context, FetchContext};
use crate::enums::Index;
use crate::error::HwbpError;
use crate::hwbp::Hwbp;
use crate::raw;
use crate::registers::{Dr6, Dr7};

verus! {

/// Something that holds a snapshot and lets it be read: the snapshot itself,
/// or a reference to one that lives elsewhere, such as the record that a trap
/// delivered.
pub trait HoldsContext {
    /// The snapshot that is held.
    spec fn held(&self) -> Context;

    /// Returns the snapshot that is held.
    fn context(&self) -> (context: &Context)
        ensures
            *context == self.held(),
    ;
}

impl HoldsContext for Context {
    open spec fn held(&self) -> Context {
        *self
    }

    fn context(&self) -> (context: &Context) {
        self
    }
}

impl<'a> HoldsContext for &'a Context {
    open spec fn held(&self) -> Context {
        **self
    }

    fn context(&self) -> (context: &Context) {
        *self
    }
}

impl<'a> HoldsContext for &'a mut Context {
    open spec fn held(&self) -> Context {
        **self
    }

    fn context(&self) -> (context: &Context) {
        &**self
    }
}

/// A snapshot of a thread's registers, owned or borrowed, with the
/// operations on the breakpoints in it.
///
/// A wrapper around an owned snapshot comes from a fetch. One around a
/// borrowed snapshot works in place on a record that lives elsewhere.
/// Nothing reaches the thread before the snapshot is applied.
pub struct HwbpContext<C>(pub C);

impl<C: HoldsContext> HwbpContext<C> {
    /// The snapshot that the wrapper holds.
    pub open spec fn snapshot(&self) -> Context {
        self.0.held()
    }

    /// Wraps a snapshot that the caller has, without fetching anything.
    ///
    /// Be careful with this function if you plan on applying the wrapper
    /// later. A fetched snapshot has the context flags that select the debug
    /// registers alone. This function leaves the flags of `context` as they
    /// are: where it has other flags set, those flags say which parts of the
    /// context get applied, and that may be more than the breakpoints.
    ///
    /// The flags are left alone because in most cases you want to keep the
    /// flags of the context whose breakpoints you modify, most of all inside
    /// an exception handler, where nothing but what you change should change.
    pub fn from_context(context: C) -> (wrapped: HwbpContext<C>)
        ensures
            wrapped.0 == context,
    {
        HwbpContext(context)
    }

    /// Retrieves the wrapped context.
    pub fn into_context(self) -> (context: C)
        ensures
            context == self.0,
    {
        self.0
    }

    /// Pushes the snapshot back to a thread in the way that `with` knows, as
    /// it stands, flags included.
    pub fn apply_with<A: ApplyContext>(&self, with: A) -> (result: Result<(), HwbpError>)
        ensures
            with.applies(self.snapshot(), result),
    {
        with.apply_context(self.0.context())
    }

    /// Returns a currently unused hardware breakpoint, or `None` if all are
    /// in use: the first, going up from the first slot, that is not enabled.
    pub fn unused_breakpoint(&self) -> (unused: Option<Hwbp>)
        ensures
            match unused {
                Some(bp) => self.snapshot()@.first_unused(bp),
                None => self.snapshot()@.all_used(),
            },
    {
        raw::unused_breakpoint(self.0.context())
    }

    /// Returns the breakpoint at the given index.
    pub fn breakpoint(&self, index: Index) -> (bp: Hwbp)
        ensures
            bp == self.snapshot()@.breakpoint(index),
    {
        raw::get_breakpoint(self.0.context(), index)
    }

    /// Returns all hardware breakpoints, in the order of their slots.
    pub fn breakpoints(&self) -> (all: Vec<Hwbp>)
        ensures
            all@ == self.snapshot()@.breakpoints(),
    {
        raw::get_breakpoints(self.0.context())
    }

    /// Returns breakpoints that overlap with the specified address, in the
    /// order of their slots.
    ///
    /// This does not check if the breakpoints are enabled or not.
    pub fn breakpoints_by_address(&self, address: usize) -> (found: Vec<Hwbp>)
        ensures
            found@ == self.snapshot()@.covering(address),
    {
        raw::get_breakpoints_by_address(self.0.context(), address)
    }

    /// Returns the breakpoints whose hit flag is set in the status word
    /// `dr6`, in the order of their slots: those that may have triggered the
    /// exception that left `dr6`.
    ///
    /// Keep in mind that the status register is not reset by the processor,
    /// so you must reset it every time a hardware breakpoint is hit for it to
    /// contain useful information.
    pub fn breakpoints_by_dr6_value(&self, dr6: usize) -> (found: Vec<Hwbp>)
        ensures
            found@ == self.snapshot()@.hit(dr6),
    {
        raw::get_breakpoints_by_dr6(self.0.context(), dr6)
    }

    /// Returns the breakpoints whose hit flag is set in the status register
    /// of the snapshot, in the order of their slots.
    pub fn breakpoints_by_dr6(&self) -> (found: Vec<Hwbp>)
        ensures
            found@ == self.snapshot()@.hit(self.snapshot().dr6),
    {
        let context = self.0.context();
        raw::get_breakpoints_by_dr6(context, context.dr6)
    }

    /// Returns the status register of the snapshot.
    pub fn dr6(&self) -> (dr6: Dr6<usize>)
        ensures
            dr6.0 == self.snapshot().dr6,
    {
        Dr6(self.0.context().dr6)
    }

    /// Returns the control register of the snapshot.
    pub fn dr7(&self) -> (dr7: Dr7<usize>)
        ensures
            dr7.0 == self.snapshot().dr7,
    {
        Dr7(self.0.context().dr7)
    }
}

/// A snapshot that the wrapper owns can be fetched and changed.
impl HwbpContext<Context> {
    /// What a fetch comes to: the wrapper around the snapshot `context` where
    /// the fetch that filled it succeeded, and its error where it failed.
    pub fn fetched(context: Context, outcome: Result<(), HwbpError>) -> (result: Result<
        Self,
        HwbpError,
    >)
        ensures
            match outcome {
                Ok(_) => result matches Ok(wrapped) && wrapped.0 == context,
                Err(error) => result matches Err(e) && e == error,
            },
    {
        match outcome {
            Ok(_) => Ok(HwbpContext(context)),
            Err(error) => Err(error),
        }
    }

    /// Retrieves a snapshot in the way that `with` knows.
    ///
    /// The fetch starts from a snapshot whose registers are zero and whose
    /// context flags ask for the debug registers alone. What comes back is
    /// what the fetch left of it, or the error of the fetch.
    pub fn get_with<F: FetchContext>(with: F) -> (result: Result<Self, HwbpError>)
        ensures
            match result {
                Ok(wrapped) => with.fetches(Context::request(), wrapped.0, Ok(())),
                Err(error) => exists|left: Context|
                    with.fetches(Context::request(), left, Err(error)),
            },
    {
        let mut context = Context::debug_registers();
        let outcome = with.fetch_context(&mut context);
        assert(outcome matches Ok(unit) ==> unit == () && outcome == Ok::<(), HwbpError>(()));
        Self::fetched(context, outcome)
    }

    /// Writes a breakpoint to the wrapped context.
    pub fn set_breakpoint(&mut self, bp: Hwbp)
        ensures
            final(self).0@ == old(self).0@.with_breakpoint(bp),
    {
        raw::set_breakpoint(&mut self.0, bp);
    }

    /// Fully clears any currently set hardware breakpoints.
    pub fn clear_breakpoints(&mut self)
        ensures
            final(self).0@ == old(self).0@.cleared(),
    {
        raw::clear_breakpoints(&mut self.0);
    }

    /// Lends the status register of the snapshot, to change it in place.
    pub fn dr6_mut(&mut self) -> (dr6: Dr6<&mut usize>)
        ensures
            *dr6.0 == old(self).0.dr6,
            final(self).0 == (Context { dr6: *final(dr6.0), ..old(self).0 }),
    {
        Dr6(&mut self.0.dr6)
    }

    /// Lends the control register of the snapshot, to change it in place.
    pub fn dr7_mut(&mut self) -> (dr7: Dr7<&mut usize>)
        ensures
            *dr7.0 == old(self).0.dr7,
            final(self).0 == (Context { dr7: *final(dr7.0), ..old(self).0 }),
    {
        Dr7(&mut self.0.dr7)
    }
}

/// A snapshot that was lent can be changed in place. The contracts say one
/// thing more than those for an owned snapshot: the lender finds the
/// snapshot as the call leaves it.
impl<'a> HwbpContext<&'a mut Context> {
    /// Writes a breakpoint to the borrowed context.
    pub fn set_breakpoint(&mut self, bp: Hwbp)
        ensures
            final(self).0@ == old(self).0@.with_breakpoint(bp),
            *final(final(self).0) == *final(old(self).0),
    {
        raw::set_breakpoint(self.0, bp);
    }

    /// Fully clears any currently set hardware breakpoints in the borrowed
    /// context.
    pub fn clear_breakpoints(&mut self)
        ensures
            final(self).0@ == old(self).0@.cleared(),
            *final(final(self).0) == *final(old(self).0),
    {
        raw::clear_breakpoints(self.0);
    }

    /// Lends the status register of the borrowed snapshot, to change it in
    /// place.
    pub fn dr6_mut(&mut self) -> (dr6: Dr6<&mut usize>)
        ensures
            *dr6.0 == old(self).0.dr6,
            *final(self).0 == (Context { dr6: *final(dr6.0), ..*old(self).0 }),
            *final(final(self).0) == *final(old(self).0),
    {
        Dr6(&mut self.0.dr6)
    }

    /// Lends the control register of the borrowed snapshot, to change it in
    /// place.
    pub fn dr7_mut(&mut self) -> (dr7: Dr7<&mut usize>)
        ensures
            *dr7.0 == old(self).0.dr7,
            *final(self).0 == (Context { dr7: *final(dr7.0), ..*old(self).0 }),
            *final(final(self).0) == *final(old(self).0),
    {
        Dr7(&mut self.0.dr7)
    }
}

} // verus!
