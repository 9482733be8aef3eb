//! The description of one hardware breakpoint.
use vstd::prelude::*;

use crate::context::{ApplyContext, Context, FetchContext};
use crate::enums::{Condition, Index, Size};
use crate::error::HwbpError;
use crate::hwbp_context::HwbpContext;

verus! {

/// One hardware breakpoint: a plain value that says which slot it takes,
/// what it watches and whether it is enabled. It has nothing to do with any
/// register until it is written to a snapshot.
///
/// Nothing is checked when one is made. `Condition::Execution` with a size
/// other than `Size::One` is accepted, and the processor will not fire on it.
#[derive(Copy, Clone, Debug, PartialEq, Eq, Structural)]
pub struct Hwbp {
    pub enabled: bool,
    pub index: Index,
    pub address: usize,
    pub size: Size,
    pub condition: Condition,
}

impl Hwbp {
    /// The breakpoint that the constructors start from: in the slot `index`,
    /// disabled, at address zero, one byte wide, on reads and writes.
    pub open spec fn blank(index: Index) -> Hwbp {
        Hwbp {
            enabled: false,
            index,
            address: 0,
            size: Size::One,
            condition: Condition::ReadWrite,
        }
    }

    /// Whether `address` lies in the bytes that the breakpoint watches, from
    /// its address up to its size further, whether or not it is enabled.
    pub open spec fn covers(self, address: usize) -> bool {
        self.address <= address < self.address + self.size.bytes()
    }

    #[must_use]
    fn new() -> (bp: Self)
        ensures
            bp == Hwbp::blank(Index::First),
    {
        Self {
            enabled: false,
            index: Index::First,
            address: 0,
            size: Size::One,
            condition: Condition::ReadWrite,
        }
    }

    /// Constructs a new hardware breakpoint in the slot `index`.
    pub fn from_index(index: Index) -> (bp: Self)
        ensures
            bp == Hwbp::blank(index),
    {
        Self::new().with_index(index)
    }

    /// Constructs a new hardware breakpoint in the first slot.
    pub fn first() -> (bp: Self)
        ensures
            bp == Hwbp::blank(Index::First),
    {
        Self::new().with_index(Index::First)
    }

    /// Constructs a new hardware breakpoint in the second slot.
    pub fn second() -> (bp: Self)
        ensures
            bp == Hwbp::blank(Index::Second),
    {
        Self::new().with_index(Index::Second)
    }

    /// Constructs a new hardware breakpoint in the third slot.
    pub fn third() -> (bp: Self)
        ensures
            bp == Hwbp::blank(Index::Third),
    {
        Self::new().with_index(Index::Third)
    }

    /// Constructs a new hardware breakpoint in the fourth slot.
    pub fn fourth() -> (bp: Self)
        ensures
            bp == Hwbp::blank(Index::Fourth),
    {
        Self::new().with_index(Index::Fourth)
    }

    /// Returns the breakpoint with its address replaced.
    #[must_use]
    pub fn with_address(self, address: usize) -> (bp: Hwbp)
        ensures
            bp == (Hwbp { address, ..self }),
    {
        let mut bp = self;
        bp.address = address;
        bp
    }

    /// Returns the breakpoint with its condition replaced.
    #[must_use]
    pub fn with_condition(self, condition: Condition) -> (bp: Hwbp)
        ensures
            bp == (Hwbp { condition, ..self }),
    {
        let mut bp = self;
        bp.condition = condition;
        bp
    }

    /// Returns the breakpoint with its size replaced.
    #[must_use]
    pub fn with_size(self, size: Size) -> (bp: Hwbp)
        ensures
            bp == (Hwbp { size, ..self }),
    {
        let mut bp = self;
        bp.size = size;
        bp
    }

    /// Returns the breakpoint moved to the slot `index`.
    #[must_use]
    pub fn with_index(self, index: Index) -> (bp: Hwbp)
        ensures
            bp == (Hwbp { index, ..self }),
    {
        let mut bp = self;
        bp.index = index;
        bp
    }

    /// Returns the breakpoint enabled or disabled.
    #[must_use]
    pub fn with_enabled(self, b: bool) -> (bp: Hwbp)
        ensures
            bp == (Hwbp { enabled: b, ..self }),
    {
        let mut bp = self;
        bp.enabled = b;
        bp
    }

    /// Returns whether `address` lies in the bytes that the breakpoint
    /// watches.
    pub fn watches(&self, address: usize) -> (inside: bool)
        ensures
            inside == self.covers(address),
    {
        address >= self.address && address - self.address < self.size.in_bytes()
    }

    /// Writes the breakpoint to an owned snapshot.
    pub fn apply_to(self, context: &mut HwbpContext<Context>)
        ensures
            final(context).0@ == old(context).0@.with_breakpoint(self),
    {
        context.set_breakpoint(self);
    }

    /// Writes the breakpoint to a borrowed snapshot.
    pub fn apply_to_borrowed(self, context: &mut HwbpContext<&mut Context>)
        ensures
            final(context).0@ == old(context).0@.with_breakpoint(self),
            *final(final(context).0) == *final(old(context).0),
    {
        context.set_breakpoint(self);
    }

    /// Whether fetching a snapshot with `fetch`, writing the breakpoint to it
    /// and applying it with `apply` may come to `result`: either the fetch
    /// fails and `result` is its error, or the fetch leaves a snapshot, the
    /// breakpoint is written to it, and `result` is what applying that
    /// snapshot gives.
    pub open spec fn applied_with<F: FetchContext, A: ApplyContext>(
        self,
        fetch: F,
        apply: A,
        result: Result<(), HwbpError>,
    ) -> bool {
        ||| result matches Err(error) && exists|left: Context| #[trigger]
            fetch.fetches(Context::request(), left, Err(error))
        ||| exists|fetched: Context, written: Context|
            {
                &&& #[trigger] fetch.fetches(Context::request(), fetched, Ok(()))
                &&& written@ == fetched@.with_breakpoint(self)
                &&& #[trigger] apply.applies(written, result)
            }
    }

    /// Fetches a snapshot with `fetch`, writes the breakpoint to it and
    /// applies it with `apply`.
    ///
    /// The breakpoint it places will, where it is enabled, cause an
    /// exception when it is hit. The caller should have some form of
    /// exception handling set up.
    pub fn apply_with<F: FetchContext, A: ApplyContext>(self, fetch: F, apply: A) -> (result:
        Result<(), HwbpError>)
        ensures
            self.applied_with(fetch, apply, result),
    {
        let mut context = match HwbpContext::get_with(fetch) {
            Ok(context) => context,
            Err(error) => {
                return Err(error);
            },
        };
        context.set_breakpoint(self);
        context.apply_with(apply)
    }

    /// Enables and applies the breakpoint: as `apply_with` does for the
    /// breakpoint with `enabled` set, which is returned where that succeeds.
    pub fn enable_with<F: FetchContext, A: ApplyContext>(self, fetch: F, apply: A) -> (result:
        Result<Hwbp, HwbpError>)
        ensures
            match result {
                Ok(bp) => bp == (Hwbp { enabled: true, ..self }) && bp.applied_with(
                    fetch,
                    apply,
                    Ok(()),
                ),
                Err(error) => (Hwbp { enabled: true, ..self }).applied_with(
                    fetch,
                    apply,
                    Err(error),
                ),
            },
    {
        let bp = self.with_enabled(true);
        let outcome = bp.apply_with(fetch, apply);
        assert(outcome matches Ok(unit) ==> unit == () && outcome == Ok::<(), HwbpError>(()));
        match outcome {
            Ok(_) => Ok(bp),
            Err(error) => Err(error),
        }
    }

    /// Disables and applies the breakpoint: as `apply_with` does for the
    /// breakpoint with `enabled` unset, which is returned where that
    /// succeeds.
    pub fn disable_with<F: FetchContext, A: ApplyContext>(self, fetch: F, apply: A) -> (result:
        Result<Hwbp, HwbpError>)
        ensures
            match result {
                Ok(bp) => bp == (Hwbp { enabled: false, ..self }) && bp.applied_with(
                    fetch,
                    apply,
                    Ok(()),
                ),
                Err(error) => (Hwbp { enabled: false, ..self }).applied_with(
                    fetch,
                    apply,
                    Err(error),
                ),
            },
    {
        let bp = self.with_enabled(false);
        let outcome = bp.apply_with(fetch, apply);
        assert(outcome matches Ok(unit) ==> unit == () && outcome == Ok::<(), HwbpError>(()));
        match outcome {
            Ok(_) => Ok(bp),
            Err(error) => Err(error),
        }
    }

    /// Returns a currently unused hardware breakpoint of the snapshot that
    /// `fetch` gives: the first that is not enabled, `None` where all are in
    /// use, and the error of the fetch where it fails.
    pub fn unused_with<F: FetchContext>(fetch: F) -> (result: Result<Option<Hwbp>, HwbpError>)
        ensures
            match result {
                Ok(unused) => exists|fetched: Context|
                    {
                        &&& #[trigger] fetch.fetches(Context::request(), fetched, Ok(()))
                        &&& match unused {
                            Some(bp) => fetched@.first_unused(bp),
                            None => fetched@.all_used(),
                        }
                    },
                Err(error) => exists|left: Context| #[trigger]
                    fetch.fetches(Context::request(), left, Err(error)),
            },
    {
        match HwbpContext::get_with(fetch) {
            Ok(context) => Ok(context.unused_breakpoint()),
            Err(error) => Err(error),
        }
    }
}

} // verus!
