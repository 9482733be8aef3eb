//! Reading and writing breakpoints in a snapshot, as plain functions.
//!
//! What each function does is said over the view of the snapshot, which
//! tells a snapshot apart from every other: see
//! [`lemma_view_tells_context`].
use vstd::prelude::*;

use crate::context::{hit_by, watching, Context};
use crate::enums::{Condition, Index, Size};
use crate::hwbp::Hwbp;
use crate::registers::{
    lemma_control_view_injective, lemma_hit_is_the_flag, Dr6, Dr7, SlotControl,
};

verus! {

/// Writes a breakpoint to the provided context: the address to the address
/// register of its slot, and its size, condition and enabled flag to the
/// slot's bits of the control register. The global-enable flag of the slot,
/// the other slots and the rest of the snapshot stay as they are.
pub fn set_breakpoint(context: &mut Context, bp: Hwbp)
    ensures
        final(context)@ == old(context)@.with_breakpoint(bp),
{
    match bp.index {
        Index::First => {
            context.dr0 = bp.address;
        },
        Index::Second => {
            context.dr1 = bp.address;
        },
        Index::Third => {
            context.dr2 = bp.address;
        },
        Index::Fourth => {
            context.dr3 = bp.address;
        },
    }
    // Set the condition, size, and enabled bits.
    let mut dr7 = Dr7(context.dr7);
    dr7.set_size(bp.index, bp.size);
    dr7.set_condition(bp.index, bp.condition);
    dr7.set_enabled_local(bp.index, bp.enabled);
    context.dr7 = dr7.0;
    proof {
        let before = old(context)@;
        let after = context@;
        assert(after.addresses =~= before.with_breakpoint(bp).addresses);
        assert(after.control.slots =~= before.with_breakpoint(bp).control.slots);
    }
}

/// Reads the breakpoint of the slot `index` from the provided context.
#[must_use]
pub fn get_breakpoint(context: &Context, index: Index) -> (bp: Hwbp)
    ensures
        bp == context@.breakpoint(index),
{
    let address = match index {
        Index::First => context.dr0,
        Index::Second => context.dr1,
        Index::Third => context.dr2,
        Index::Fourth => context.dr3,
    };
    let dr7 = Dr7(context.dr7);
    Hwbp {
        enabled: dr7.enabled_local(index),
        index,
        address,
        size: dr7.size(index),
        condition: dr7.condition(index),
    }
}

/// Returns a currently unused breakpoint, unless all are already in use: the
/// first, going up from the first slot, that is not enabled.
pub fn unused_breakpoint(context: &Context) -> (unused: Option<Hwbp>)
    ensures
        match unused {
            Some(bp) => context@.first_unused(bp),
            None => context@.all_used(),
        },
{
    let first = get_breakpoint(context, Index::First);
    if !first.enabled {
        return Some(first);
    }
    let second = get_breakpoint(context, Index::Second);
    if !second.enabled {
        return Some(second);
    }
    let third = get_breakpoint(context, Index::Third);
    if !third.enabled {
        return Some(third);
    }
    let fourth = get_breakpoint(context, Index::Fourth);
    if !fourth.enabled {
        return Some(fourth);
    }
    None
}

/// Returns all breakpoints that overlap with the specified address, in the
/// order of their slots.
///
/// This does not check if the breakpoints are enabled or not.
pub fn get_breakpoints_by_address(context: &Context, address: usize) -> (found: Vec<Hwbp>)
    ensures
        found@ == context@.covering(address),
{
    let all = get_breakpoints(context);
    let mut found: Vec<Hwbp> = Vec::new();
    let mut i: usize = 0;
    while i < all.len()
        invariant
            i <= all.len(),
            all@ == context@.breakpoints(),
            found@ == all@.take(i as int).filter(watching(address)),
        decreases all.len() - i,
    {
        let bp = all[i];
        if bp.watches(address) {
            found.push(bp);
        }
        proof {
            reveal(Seq::filter);
            assert(all@.take(i + 1).drop_last() =~= all@.take(i as int));
        }
        i += 1;
    }
    assert(all@.take(all.len() as int) =~= all@);
    found
}

/// Returns the breakpoints whose hit flag is set in the status word `dr6`,
/// in the order of their slots.
pub fn get_breakpoints_by_dr6(context: &Context, dr6: usize) -> (found: Vec<Hwbp>)
    ensures
        found@ == context@.hit(dr6),
{
    let all = get_breakpoints(context);
    let status = Dr6(dr6);
    let mut found: Vec<Hwbp> = Vec::new();
    let mut i: usize = 0;
    while i < all.len()
        invariant
            i <= all.len(),
            all@ == context@.breakpoints(),
            status.0 == dr6,
            found@ == all@.take(i as int).filter(hit_by(dr6)),
        decreases all.len() - i,
    {
        let bp = all[i];
        if status.breakpoint_at(bp.index) {
            found.push(bp);
        }
        proof {
            reveal(Seq::filter);
            assert(all@.take(i + 1).drop_last() =~= all@.take(i as int));
        }
        i += 1;
    }
    assert(all@.take(all.len() as int) =~= all@);
    found
}

/// Returns all breakpoints, in the order of their slots.
pub fn get_breakpoints(context: &Context) -> (all: Vec<Hwbp>)
    ensures
        all@ == context@.breakpoints(),
{
    let all = vec![
        get_breakpoint(context, Index::First),
        get_breakpoint(context, Index::Second),
        get_breakpoint(context, Index::Third),
        get_breakpoint(context, Index::Fourth),
    ];
    assert(all@ =~= context@.breakpoints());
    all
}

/// Fully clear any currently set breakpoints: the four addresses become
/// zero, and the control register keeps only its reserved flags.
pub fn clear_breakpoints(context: &mut Context)
    ensures
        final(context)@ == old(context)@.cleared(),
{
    let mut dr7 = Dr7(context.dr7);
    dr7.clear_breakpoints();
    context.dr7 = dr7.0;
    context.dr0 = 0;
    context.dr1 = 0;
    context.dr2 = 0;
    context.dr3 = 0;
    assert(context@.addresses =~= old(context)@.cleared().addresses);
}

/// A snapshot is told by its view: two snapshots with the same view are the
/// same snapshot. So a contract that gives the view of a result gives the
/// result.
pub proof fn lemma_view_tells_context(a: Context, b: Context)
    requires
        a@ == b@,
    ensures
        a == b,
{
    assert(a@.addresses[0] == b@.addresses[0]);
    assert(a@.addresses[1] == b@.addresses[1]);
    assert(a@.addresses[2] == b@.addresses[2]);
    assert(a@.addresses[3] == b@.addresses[3]);
    lemma_control_view_injective(a.dr7 as u64, b.dr7 as u64);
}

/// Writing a breakpoint and reading its slot gives the breakpoint back,
/// whatever the snapshot held and whatever the breakpoint is.
pub proof fn lemma_set_then_get(context: Context, bp: Hwbp)
    ensures
        context@.with_breakpoint(bp).breakpoint(bp.index) == bp,
{
}

/// Writing a breakpoint leaves every other slot as it was: its address, its
/// enabled flags, its condition and its size. It also leaves the
/// global-enable flag of its own slot, the reserved flags of the control
/// register, what lies above bit 31 of it, the status word and the context
/// flags.
pub proof fn lemma_set_leaves_the_rest(context: Context, bp: Hwbp, other: Index)
    ensures
        other != bp.index ==> context@.with_breakpoint(bp).breakpoint(other)
            == context@.breakpoint(other),
        other != bp.index ==> context@.with_breakpoint(bp).control.slot(other)
            == context@.control.slot(other),
        context@.with_breakpoint(bp).control.slot(bp.index).enabled_global
            == context@.control.slot(bp.index).enabled_global,
        context@.with_breakpoint(bp).control.reserved == context@.control.reserved,
        context@.with_breakpoint(bp).control.high == context@.control.high,
        context@.with_breakpoint(bp).status == context@.status,
        context@.with_breakpoint(bp).context_flags == context@.context_flags,
{
}

/// After a clear every slot holds a disabled breakpoint at address zero,
/// with the size and the condition whose codes are zero; none is in use, and
/// the first unused one is that of the first slot.
pub proof fn lemma_cleared_is_unused(context: Context, index: Index)
    ensures
        context@.cleared().breakpoint(index) == (Hwbp {
            enabled: false,
            index,
            address: 0,
            size: Size::One,
            condition: Condition::Execution,
        }),
        context@.cleared().first_unused(context@.cleared().breakpoint(Index::First)),
        !context@.cleared().all_used(),
        context@.cleared().control.reserved == context@.control.reserved,
{
    let cleared = context@.cleared();
    assert(cleared.control.slots[index.ordinal()] == SlotControl::off());
    assert(cleared.control.slots[0] == SlotControl::off());
    assert(!cleared.breakpoint(Index::First).enabled);
}

/// Where the hit flag of one slot alone is set in a status word, the
/// breakpoints that the word names are the breakpoint of that slot and no
/// other; where no hit flag is set, it names none.
pub proof fn lemma_hits_of_a_status(context: Context, dr6: usize, index: Index)
    ensures
        index.alone_hit_in(dr6) ==> context@.hit(dr6) == seq![context@.breakpoint(index)],
        (forall|slot: Index| !#[trigger] slot.hit_in(dr6)) ==> context@.hit(dr6) == Seq::<
            Hwbp,
        >::empty(),
{
    let all = context@.breakpoints();
    let named = hit_by(dr6);
    lemma_hit_is_the_flag(dr6, Index::First);
    lemma_hit_is_the_flag(dr6, Index::Second);
    lemma_hit_is_the_flag(dr6, Index::Third);
    lemma_hit_is_the_flag(dr6, Index::Fourth);
    assert(named(all[0]) == Index::First.hit_in(dr6));
    assert(named(all[1]) == Index::Second.hit_in(dr6));
    assert(named(all[2]) == Index::Third.hit_in(dr6));
    assert(named(all[3]) == Index::Fourth.hit_in(dr6));
    reveal_with_fuel(Seq::filter, 5);
    assert(all.drop_last().drop_last().drop_last().drop_last() =~= Seq::<Hwbp>::empty());
    assert(all.drop_last().drop_last().drop_last().last() == all[0]);
    assert(all.drop_last().drop_last().last() == all[1]);
    assert(all.drop_last().last() == all[2]);
    assert(all.last() == all[3]);
    if index.alone_hit_in(dr6) {
        assert(context@.hit(dr6) =~= seq![context@.breakpoint(index)]);
    }
    if forall|slot: Index| !#[trigger] slot.hit_in(dr6) {
        assert(context@.hit(dr6) =~= Seq::<Hwbp>::empty());
    }
}

} // verus!
