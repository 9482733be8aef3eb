use hwbp::{Condition, Index, Size};

#[test]
fn size_codes_are_not_the_positions_of_the_variants() {
    assert_eq!(Size::One.as_bits(), 0b00);
    assert_eq!(Size::Two.as_bits(), 0b01);
    assert_eq!(Size::Four.as_bits(), 0b11);
    assert_eq!(Size::Eight.as_bits(), 0b10);
}

#[test]
fn size_in_bytes() {
    assert_eq!(Size::One.in_bytes(), 1);
    assert_eq!(Size::Two.in_bytes(), 2);
    assert_eq!(Size::Four.in_bytes(), 4);
    assert_eq!(Size::Eight.in_bytes(), 8);
}

#[test]
fn size_from_bits_inverts_as_bits() {
    for size in [Size::One, Size::Two, Size::Four, Size::Eight] {
        assert_eq!(Size::from_bits(size.as_bits()), Some(size));
    }
    assert_eq!(Size::from_bits(0b11), Some(Size::Four));
    assert_eq!(Size::from_bits(0b10), Some(Size::Eight));
}

#[test]
fn size_from_bits_refuses_wider_codes() {
    assert_eq!(Size::from_bits(4), None);
    assert_eq!(Size::from_bits(0xff), None);
}

#[test]
fn condition_codes() {
    assert_eq!(Condition::Execution.as_bits(), 0b00);
    assert_eq!(Condition::Write.as_bits(), 0b01);
    assert_eq!(Condition::ReadWrite.as_bits(), 0b11);
    assert_eq!(Condition::IoReadWrite.as_bits(), 0b10);
}

#[test]
fn condition_from_bits_inverts_as_bits() {
    for condition in [
        Condition::Execution,
        Condition::Write,
        Condition::ReadWrite,
        Condition::IoReadWrite,
    ] {
        assert_eq!(Condition::from_bits(condition.as_bits()), Some(condition));
    }
}

#[test]
fn condition_from_bits_refuses_wider_codes() {
    assert_eq!(Condition::from_bits(4), None);
    assert_eq!(Condition::from_bits(0b101), None);
}

#[test]
fn index_positions() {
    assert_eq!(Index::First.position(), 0);
    assert_eq!(Index::Second.position(), 1);
    assert_eq!(Index::Third.position(), 2);
    assert_eq!(Index::Fourth.position(), 3);
}

#[test]
fn index_is_ordered_by_slot() {
    assert!(Index::First < Index::Second);
    assert!(Index::Second < Index::Third);
    assert!(Index::Third < Index::Fourth);
}

#[test]
fn index_try_from_a_number() {
    assert_eq!(Index::try_from(0u8), Ok(Index::First));
    assert_eq!(Index::try_from(1u8), Ok(Index::Second));
    assert_eq!(Index::try_from(2u8), Ok(Index::Third));
    assert_eq!(Index::try_from(3u8), Ok(Index::Fourth));
    assert_eq!(Index::try_from(4u8), Err(()));
    assert_eq!(Index::try_from(255u8), Err(()));
}

#[test]
fn by_dr6_names_the_single_hit() {
    assert_eq!(Index::by_dr6(0b0001), Some(Index::First));
    assert_eq!(Index::by_dr6(0b0010), Some(Index::Second));
    assert_eq!(Index::by_dr6(0b0100), Some(Index::Third));
    assert_eq!(Index::by_dr6(0b1000), Some(Index::Fourth));
}

#[test]
fn by_dr6_looks_at_the_hit_flags_alone() {
    assert_eq!(Index::by_dr6(0x4000 | 0b0100), Some(Index::Third));
    assert_eq!(Index::by_dr6(0x1_0000 | 0b0001), Some(Index::First));
}

#[test]
fn by_dr6_gives_none_without_a_hit() {
    assert_eq!(Index::by_dr6(0), None);
    assert_eq!(Index::by_dr6(0x1_0000), None);
    assert_eq!(Index::by_dr6(0xe000), None);
}

#[test]
fn by_dr6_gives_none_for_several_hits() {
    assert_eq!(Index::by_dr6(0b0011), None);
    assert_eq!(Index::by_dr6(0b1010), None);
    assert_eq!(Index::by_dr6(0b1111), None);
}
