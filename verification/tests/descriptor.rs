use hwbp::{Condition, Hwbp, Index, Size};

#[test]
fn a_new_breakpoint_is_disabled_at_address_zero() {
    let bp = Hwbp::first();
    assert_eq!(
        bp,
        Hwbp {
            enabled: false,
            index: Index::First,
            address: 0,
            size: Size::One,
            condition: Condition::ReadWrite,
        }
    );
}

#[test]
fn constructors_choose_the_slot() {
    assert_eq!(Hwbp::first().index, Index::First);
    assert_eq!(Hwbp::second().index, Index::Second);
    assert_eq!(Hwbp::third().index, Index::Third);
    assert_eq!(Hwbp::fourth().index, Index::Fourth);
    assert_eq!(Hwbp::from_index(Index::Third), Hwbp::third());
    assert_eq!(Hwbp::from_index(Index::Fourth).with_index(Index::First), Hwbp::first());
}

#[test]
fn builders_replace_one_field() {
    let bp = Hwbp::second()
        .with_address(0x7ff0_1000)
        .with_size(Size::Four)
        .with_condition(Condition::Write)
        .with_enabled(true);
    assert_eq!(
        bp,
        Hwbp {
            enabled: true,
            index: Index::Second,
            address: 0x7ff0_1000,
            size: Size::Four,
            condition: Condition::Write,
        }
    );
    assert_eq!(bp.with_enabled(false).address, 0x7ff0_1000);
    assert_eq!(bp.with_index(Index::Fourth).size, Size::Four);
}

#[test]
fn execution_with_a_wide_span_is_accepted() {
    let bp = Hwbp::first().with_condition(Condition::Execution).with_size(Size::Eight);
    assert_eq!(bp.condition, Condition::Execution);
    assert_eq!(bp.size, Size::Eight);
}

#[test]
fn a_breakpoint_watches_its_span() {
    let bp = Hwbp::first().with_address(0x1000).with_size(Size::Four);
    assert!(!bp.watches(0xfff));
    assert!(bp.watches(0x1000));
    assert!(bp.watches(0x1003));
    assert!(!bp.watches(0x1004));
}

#[test]
fn a_span_at_the_top_of_memory() {
    let bp = Hwbp::first().with_address(usize::MAX - 1).with_size(Size::Eight);
    assert!(bp.watches(usize::MAX - 1));
    assert!(bp.watches(usize::MAX));
    assert!(!bp.watches(0));
    assert!(!bp.watches(usize::MAX - 2));
}
