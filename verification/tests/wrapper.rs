use hwbp::context::{
    ApplyContext, Context, FetchContext, CONTEXT_DEBUG_REGISTERS_AMD64,
    CONTEXT_DEBUG_REGISTERS_I386,
};
use hwbp::raw;
use hwbp::{Condition, Hwbp, HwbpContext, HwbpError, Index, Size};

const INDICES: [Index; 4] = [Index::First, Index::Second, Index::Third, Index::Fourth];
const SIZES: [Size; 4] = [Size::One, Size::Two, Size::Four, Size::Eight];
const CONDITIONS: [Condition; 4] =
    [Condition::Execution, Condition::Write, Condition::ReadWrite, Condition::IoReadWrite];

fn blank() -> Context {
    Context { context_flags: 0, dr0: 0, dr1: 0, dr2: 0, dr3: 0, dr6: 0, dr7: 0 }
}

fn busy() -> Context {
    Context {
        context_flags: 0x0010_001f,
        dr0: 0x1111,
        dr1: 0x2222,
        dr2: 0x3333,
        dr3: 0x4444,
        dr6: 0x4002,
        dr7: 0xa5c3_ff5a,
    }
}

/// Hands out a fixed snapshot, keeping the flags it was asked with.
struct Hands(Context);

impl FetchContext for Hands {
    fn fetch_context(self, context: &mut Context) -> Result<(), HwbpError> {
        *context = Context { context_flags: context.context_flags, ..self.0 };
        Ok(())
    }
}

struct NeverFetches;

impl FetchContext for NeverFetches {
    fn fetch_context(self, _context: &mut Context) -> Result<(), HwbpError> {
        Err(HwbpError::FailedFetchContext)
    }
}

/// Accepts exactly one snapshot.
struct Expects(Context);

impl ApplyContext for Expects {
    fn apply_context(self, context: &Context) -> Result<(), HwbpError> {
        if *context == self.0 {
            Ok(())
        } else {
            Err(HwbpError::FailedApplyContext)
        }
    }
}

#[test]
fn a_written_breakpoint_reads_back() {
    for start in [blank(), busy()] {
        for index in INDICES {
            for size in SIZES {
                for condition in CONDITIONS {
                    for enabled in [false, true] {
                        let bp = Hwbp { enabled, index, address: 0xdead_b000, size, condition };
                        let mut context = HwbpContext::from_context(start);
                        context.set_breakpoint(bp);
                        assert_eq!(context.breakpoint(index), bp);
                    }
                }
            }
        }
    }
}

#[test]
fn writing_slot_three_leaves_the_other_slots() {
    let start = busy();
    let before = HwbpContext::from_context(start);
    let mut context = HwbpContext::from_context(start);
    context.set_breakpoint(
        Hwbp::third()
            .with_address(0x9000)
            .with_size(Size::Two)
            .with_condition(Condition::Write)
            .with_enabled(true),
    );
    for other in [Index::First, Index::Second, Index::Fourth] {
        assert_eq!(context.breakpoint(other), before.breakpoint(other));
        assert_eq!(context.dr7().enabled_global(other), before.dr7().enabled_global(other));
    }
    let after = context.into_context();
    assert_eq!(after.dr7 & 0xff00, start.dr7 & 0xff00);
    assert_eq!(after.dr7, 0xa5c3_ff5a & !(0b1111 << 24) | 0b0101 << 24 | 1 << 4);
    assert_eq!(after.dr2, 0x9000);
    assert_eq!((after.dr0, after.dr1, after.dr3), (0x1111, 0x2222, 0x4444));
    assert_eq!(after.dr6, start.dr6);
    assert_eq!(after.context_flags, start.context_flags);
}

#[test]
fn writing_a_breakpoint_sets_address_and_control_bits() {
    let mut context = blank();
    raw::set_breakpoint(
        &mut context,
        Hwbp::second()
            .with_address(0x4010)
            .with_size(Size::Four)
            .with_condition(Condition::ReadWrite)
            .with_enabled(true),
    );
    assert_eq!(context.dr1, 0x4010);
    assert_eq!(context.dr7, 1 << 2 | 0b11 << 20 | 0b11 << 22);
    assert_eq!(raw::get_breakpoint(&context, Index::Second).address, 0x4010);
}

#[test]
fn writing_leaves_the_global_enable_flag() {
    let mut context = Context { dr7: 1 << 1 | 1 << 0, ..blank() };
    raw::set_breakpoint(&mut context, Hwbp::first().with_address(8));
    assert_eq!(context.dr7, 1 << 1 | 0b11 << 16);
}

#[test]
fn breakpoints_come_in_slot_order() {
    let context = HwbpContext::from_context(busy());
    let all = context.breakpoints();
    assert_eq!(all.len(), 4);
    for (position, index) in INDICES.into_iter().enumerate() {
        assert_eq!(all[position], context.breakpoint(index));
        assert_eq!(all[position].index, index);
    }
    assert_eq!(
        all.iter().map(|bp| bp.address).collect::<Vec<_>>(),
        vec![0x1111, 0x2222, 0x3333, 0x4444]
    );
    assert_eq!(raw::get_breakpoints(&busy()), all);
}

#[test]
fn overlap_query() {
    let a = 0x10_0000usize;
    let mut context = HwbpContext::from_context(Context {
        dr2: usize::MAX,
        dr3: usize::MAX,
        ..blank()
    });
    context.set_breakpoint(Hwbp::first().with_address(a).with_size(Size::Four));
    context.set_breakpoint(Hwbp::second().with_address(a + 4).with_size(Size::One));
    let slot = |address| {
        context.breakpoints_by_address(address).iter().map(|bp| bp.index).collect::<Vec<_>>()
    };
    assert_eq!(slot(a + 2), vec![Index::First]);
    assert_eq!(slot(a + 4), vec![Index::Second]);
    assert_eq!(slot(a + 10), vec![]);
    assert_eq!(slot(a - 1), vec![]);
    assert_eq!(context.breakpoints_by_address(a + 2), vec![context.breakpoint(Index::First)]);
}

#[test]
fn overlap_query_does_not_ask_whether_enabled() {
    let mut context = blank();
    raw::set_breakpoint(
        &mut context,
        Hwbp::third().with_address(0x500).with_size(Size::Eight).with_enabled(false),
    );
    raw::set_breakpoint(
        &mut context,
        Hwbp::fourth().with_address(0x504).with_size(Size::Two).with_enabled(true),
    );
    let found = raw::get_breakpoints_by_address(&context, 0x505);
    assert_eq!(found.iter().map(|bp| bp.index).collect::<Vec<_>>(), vec![Index::Third, Index::Fourth]);
    assert_eq!(raw::get_breakpoints_by_address(&context, 0x507).len(), 1);
    // The two untouched slots sit at address zero, one byte wide.
    assert_eq!(raw::get_breakpoints_by_address(&context, 0).len(), 2);
}

#[test]
fn clearing_leaves_four_unused_breakpoints() {
    let start = busy();
    let mut context = HwbpContext::from_context(start);
    context.clear_breakpoints();
    let all = context.breakpoints();
    assert_eq!(all.len(), 4);
    for bp in &all {
        assert!(!bp.enabled);
        assert_eq!(bp.address, 0);
    }
    assert_eq!(
        context.unused_breakpoint(),
        Some(Hwbp {
            enabled: false,
            index: Index::First,
            address: 0,
            size: Size::One,
            condition: Condition::Execution,
        })
    );
    let after = context.into_context();
    assert_eq!(after.dr7, 0xff00);
    assert_eq!((after.dr0, after.dr1, after.dr2, after.dr3), (0, 0, 0, 0));
    assert_eq!(after.dr6, start.dr6);
    assert_eq!(after.context_flags, start.context_flags);
}

#[test]
fn the_first_disabled_slot_is_unused() {
    let mut context = HwbpContext::from_context(blank());
    assert_eq!(context.unused_breakpoint().map(|bp| bp.index), Some(Index::First));
    context.set_breakpoint(Hwbp::first().with_enabled(true));
    context.set_breakpoint(Hwbp::second().with_enabled(true));
    context.set_breakpoint(Hwbp::fourth().with_enabled(true));
    assert_eq!(context.unused_breakpoint(), Some(context.breakpoint(Index::Third)));
    context.set_breakpoint(Hwbp::third().with_enabled(true));
    assert_eq!(context.unused_breakpoint(), None);
    assert_eq!(raw::unused_breakpoint(&context.into_context()), None);
}

#[test]
fn a_global_enable_flag_does_not_make_a_slot_used() {
    let context = Context { dr7: 1 << 1, ..blank() };
    assert_eq!(raw::unused_breakpoint(&context).map(|bp| bp.index), Some(Index::First));
}

#[test]
fn hit_breakpoints_by_status_value() {
    let context = HwbpContext::from_context(busy());
    let slots =
        |dr6| context.breakpoints_by_dr6_value(dr6).iter().map(|bp| bp.index).collect::<Vec<_>>();
    assert_eq!(slots(0b0001), vec![Index::First]);
    assert_eq!(slots(0b1010), vec![Index::Second, Index::Fourth]);
    assert_eq!(slots(0b1111), INDICES.to_vec());
    assert_eq!(slots(0), vec![]);
    assert_eq!(slots(0xe000), vec![]);
    assert_eq!(context.breakpoints_by_dr6_value(0b0100), vec![context.breakpoint(Index::Third)]);
}

#[test]
fn hit_breakpoints_by_the_status_register() {
    let context = HwbpContext::from_context(busy());
    assert_eq!(context.breakpoints_by_dr6(), vec![context.breakpoint(Index::Second)]);
    assert_eq!(raw::get_breakpoints_by_dr6(&busy(), 0b1001).len(), 2);
}

#[test]
fn registers_of_the_snapshot() {
    let context = HwbpContext::from_context(busy());
    assert_eq!(context.dr6().0, 0x4002);
    assert_eq!(context.dr7().0, 0xa5c3_ff5a);
    assert!(context.dr6().single_step());
}

#[test]
fn reset_of_the_status_register_in_place() {
    let mut context = HwbpContext::from_context(busy());
    assert_eq!(context.dr6_mut().reset(), 0x4002);
    assert_eq!(context.dr6().0, 1 << 16);
    assert_eq!(context.dr6_mut().reset(), 1 << 16);
    assert_eq!(context.into_context(), Context { dr6: 1 << 16, ..busy() });
}

#[test]
fn control_register_in_place() {
    let mut context = HwbpContext::from_context(blank());
    context.dr7_mut().set_enabled_global(Index::Fourth, true);
    context.dr7_mut().set_size(Index::First, Size::Two);
    assert_eq!(context.dr7().0, 1 << 7 | 0b01 << 18);
    assert_eq!(context.breakpoint(Index::First).size, Size::Two);
}

#[test]
fn a_borrowed_snapshot_is_changed_in_place() {
    let mut record = busy();
    {
        let mut context = HwbpContext::from_context(&mut record);
        context.clear_breakpoints();
        context.set_breakpoint(Hwbp::second().with_address(0x77).with_enabled(true));
        assert_eq!(context.dr6_mut().reset(), 0x4002);
        context.dr7_mut().set_enabled_global(Index::First, true);
        assert_eq!(context.breakpoint(Index::Second).address, 0x77);
    }
    assert_eq!(
        record,
        Context {
            context_flags: 0x0010_001f,
            dr0: 0,
            dr1: 0x77,
            dr2: 0,
            dr3: 0,
            dr6: 1 << 16,
            dr7: 0xff00 | 1 << 2 | 0b11 << 20 | 1 << 1,
        }
    );
}

#[test]
fn a_shared_snapshot_can_be_read() {
    let record = busy();
    let context = HwbpContext::from_context(&record);
    assert_eq!(context.breakpoint(Index::First).address, 0x1111);
    assert_eq!(context.breakpoints().len(), 4);
    assert_eq!(context.dr7().0, record.dr7);
    assert!(std::ptr::eq(context.into_context(), &record));
}

#[test]
fn a_descriptor_applies_itself_to_a_snapshot() {
    let bp = Hwbp::fourth().with_address(0x40).with_size(Size::Eight).with_enabled(true);
    let mut owned = HwbpContext::from_context(blank());
    bp.apply_to(&mut owned);
    assert_eq!(owned.breakpoint(Index::Fourth), bp);
    let mut record = blank();
    bp.apply_to_borrowed(&mut HwbpContext::from_context(&mut record));
    assert_eq!(record, owned.into_context());
    assert_eq!(record.dr3, 0x40);
}

#[test]
fn a_fetch_starts_from_the_debug_register_flags() {
    let context = HwbpContext::get_with(Hands(busy())).expect("the fetch succeeds").into_context();
    let flags = if usize::BITS == 64 {
        CONTEXT_DEBUG_REGISTERS_AMD64
    } else {
        CONTEXT_DEBUG_REGISTERS_I386
    };
    assert_eq!(context, Context { context_flags: flags, ..busy() });
    assert_eq!(Context::debug_registers(), Context { context_flags: flags, ..blank() });
    assert_eq!(CONTEXT_DEBUG_REGISTERS_AMD64, 0x0010_0010);
    assert_eq!(CONTEXT_DEBUG_REGISTERS_I386, 0x0001_0010);
}

#[test]
fn a_failed_fetch_is_handed_on() {
    assert_eq!(
        HwbpContext::get_with(NeverFetches).map(|context| context.into_context()),
        Err(HwbpError::FailedFetchContext)
    );
    assert_eq!(Hwbp::unused_with(NeverFetches), Err(HwbpError::FailedFetchContext));
    assert_eq!(
        Hwbp::first().apply_with(NeverFetches, Expects(blank())),
        Err(HwbpError::FailedFetchContext)
    );
    assert_eq!(
        Hwbp::first().enable_with(NeverFetches, Expects(blank())),
        Err(HwbpError::FailedFetchContext)
    );
}

#[test]
fn what_a_fetch_outcome_comes_to() {
    assert_eq!(
        HwbpContext::fetched(busy(), Ok(())).map(|context| context.into_context()),
        Ok(busy())
    );
    assert_eq!(
        HwbpContext::fetched(busy(), Err(HwbpError::FailedFetchContext))
            .map(|context| context.into_context()),
        Err(HwbpError::FailedFetchContext)
    );
}

#[test]
fn applying_hands_the_snapshot_over_as_it_is() {
    let context = HwbpContext::from_context(busy());
    assert_eq!(context.apply_with(Expects(busy())), Ok(()));
    assert_eq!(context.apply_with(Expects(blank())), Err(HwbpError::FailedApplyContext));
    let record = busy();
    assert_eq!(HwbpContext::from_context(&record).apply_with(Expects(busy())), Ok(()));
}

#[test]
fn a_descriptor_is_fetched_written_and_applied() {
    let bp = Hwbp::second().with_address(0x6000).with_size(Size::Two).with_condition(Condition::Write);
    let mut expected = Context { context_flags: Context::debug_registers().context_flags, ..busy() };
    raw::set_breakpoint(&mut expected, bp.with_enabled(true));
    assert_eq!(bp.enable_with(Hands(busy()), Expects(expected)), Ok(bp.with_enabled(true)));
    assert_eq!(
        bp.with_enabled(true).apply_with(Hands(busy()), Expects(expected)),
        Ok(())
    );
    assert_eq!(
        bp.disable_with(Hands(busy()), Expects(expected)),
        Err(HwbpError::FailedApplyContext)
    );
    let mut disabled = expected;
    raw::set_breakpoint(&mut disabled, bp.with_enabled(false));
    assert_eq!(
        bp.with_enabled(true).disable_with(Hands(busy()), Expects(disabled)),
        Ok(bp.with_enabled(false))
    );
}

#[test]
fn an_unused_breakpoint_of_a_fetched_snapshot() {
    let third_free = Context { dr7: 0b0100_0101, dr2: 0x3333, ..blank() };
    assert_eq!(
        Hwbp::unused_with(Hands(third_free)),
        Ok(Some(Hwbp {
            enabled: false,
            index: Index::Third,
            address: 0x3333,
            size: Size::One,
            condition: Condition::Execution,
        }))
    );
    let full = Context { dr7: 0b0101_0101, ..blank() };
    assert_eq!(Hwbp::unused_with(Hands(full)), Ok(None));
}

#[test]
fn an_unused_breakpoint_is_configured_and_written() {
    let mut context = HwbpContext::from_context(Context::debug_registers());
    let bp = context
        .unused_breakpoint()
        .expect("all breakpoints are in use")
        .with_address(0x7ff6_1000)
        .with_size(Size::Four)
        .with_condition(Condition::Write)
        .with_enabled(true);
    context.set_breakpoint(bp);
    assert_eq!(context.breakpoint(Index::First), bp);
    assert_eq!(context.dr7().0, 1 | 0b01 << 16 | 0b11 << 18);
    assert_eq!(context.unused_breakpoint().map(|bp| bp.index), Some(Index::Second));
}
