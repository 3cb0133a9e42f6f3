use ch22_core::word::{OffsetResult, Word};

#[test]
fn word_u16_round_trip() {
    for value in [0x0000u16, 0x0001, 0x00ff, 0x0100, 0x1234, 0xabcd, 0xfffe, 0xffff] {
        let w = Word::from(value);
        assert_eq!(w, Word((value & 0xff) as u8, (value >> 8) as u8));
        assert_eq!(u16::from(w), value);
    }
    assert_eq!(u16::from(Word(0x34, 0x12)), 0x1234);
}

#[test]
fn zero_and_stack_page() {
    assert_eq!(Word::zero_page(0x42), Word(0x42, 0x00));
    assert_eq!(Word::stack_page(0xfd), Word(0xfd, 0x01));
    assert_eq!(u16::from(Word::stack_page(0xfd)), 0x01fd);
    assert_eq!(Word::default(), Word(0, 0));
}

#[test]
fn same_page_add_wraps_within_page() {
    assert_eq!(Word(0xf0, 0x12).same_page_add(0x20), Word(0x10, 0x12));
    assert_eq!(Word(0x10, 0x12).same_page_add(0x20), Word(0x30, 0x12));
}

#[test]
fn paged_add_reports_page_crossing() {
    assert_eq!(Word(0x10, 0x12).paged_add(0x20), (Word(0x30, 0x12), OffsetResult::SamePage));
    assert_eq!(
        Word(0xf0, 0x12).paged_add(0x20),
        (Word(0x10, 0x13), OffsetResult::CrossedPage(Word(0x10, 0x12)))
    );
    assert_eq!(
        Word(0xff, 0xff).paged_add(0x01),
        (Word(0x00, 0x00), OffsetResult::CrossedPage(Word(0x00, 0xff)))
    );
}

#[test]
fn paged_subtract_moves_back_by_the_negated_offset() {
    // offset 0xfe stands for -2
    assert_eq!(Word(0x10, 0x12).paged_subtract(0xfe), (Word(0x0e, 0x12), OffsetResult::SamePage));
    assert_eq!(
        Word(0x01, 0x12).paged_subtract(0xfe),
        (Word(0xff, 0x11), OffsetResult::CrossedPage(Word(0xff, 0x12)))
    );
    assert_eq!(
        Word(0x00, 0x00).paged_subtract(0xff),
        (Word(0xff, 0xff), OffsetResult::CrossedPage(Word(0xff, 0x00)))
    );
}

#[test]
fn paged_add_and_subtract_agree_with_u16_arithmetic() {
    for value in [0x0000u16, 0x00ff, 0x1280, 0x12ff, 0xff7f, 0xffff] {
        for offset in [0x00u8, 0x01, 0x7f, 0x80, 0xfe, 0xff] {
            let w = Word::from(value);
            assert_eq!(u16::from(w.paged_add(offset).0), value.wrapping_add(offset as u16));
            assert_eq!(
                u16::from(w.paged_subtract(offset).0),
                value.wrapping_add(offset as u16).wrapping_sub(0x100)
            );
        }
    }
}

#[test]
fn increment_carries_and_wraps() {
    let mut w = Word(0xfe, 0x12);
    w.increment();
    assert_eq!(w, Word(0xff, 0x12));
    w.increment();
    assert_eq!(w, Word(0x00, 0x13));
    let mut top = Word(0xff, 0xff);
    top.increment();
    assert_eq!(top, Word(0x00, 0x00));
}
