use my_os::bsp::device_driver::common::{Field64, FieldValue32, FieldValue64, MMIODerefWrapper};

#[test]
fn a_field_value_lies_at_its_place_in_the_register() {
    assert_eq!(FieldValue32::new(15, 3, 0b100), FieldValue32 { mask: 0x38000, value: 0x20000 });
    assert_eq!(FieldValue32::new(0, 16, 13), FieldValue32 { mask: 0xffff, value: 13 });
    assert_eq!(FieldValue32::new(31, 1, 1), FieldValue32 { mask: 0x8000_0000, value: 0x8000_0000 });
    assert_eq!(FieldValue32::new(0, 32, 0xdead_beef), FieldValue32 { mask: u32::MAX, value: 0xdead_beef });
}

#[test]
fn a_value_too_wide_for_its_field_is_cut() {
    assert_eq!(FieldValue32::new(4, 2, 0b111), FieldValue32 { mask: 0x30, value: 0x30 });
    assert_eq!(FieldValue32::new(4, 2, 0b100), FieldValue32 { mask: 0x30, value: 0 });
}

#[test]
fn field_values_combine_to_one_word() {
    let both = FieldValue32::new(15, 3, 0b100).combine(FieldValue32::new(12, 3, 0b100));
    assert_eq!(both, FieldValue32 { mask: 0x3f000, value: 0x24000 });
    assert_eq!(both.write(), 0x24000);
    let wide = FieldValue64 { mask: 0x200, value: 0 }.combine(FieldValue64 { mask: 0xf, value: 5 });
    assert_eq!(wide, FieldValue64 { mask: 0x20f, value: 5 });
    assert_eq!(wide.write(), 5);
}

#[test]
fn a_modify_replaces_the_covered_bits_only() {
    let field = FieldValue32::new(12, 3, 0b100);
    assert_eq!(field.modify(0xffff_ffff), 0xffff_cfff);
    assert_eq!(field.modify(0), 0x4000);
    assert_eq!(field.modify(0x1234_5678), 0x1234_4678);
}

#[test]
fn a_match_looks_at_the_covered_bits_only() {
    let set = FieldValue32::new(5, 1, 1);
    assert!(set.matches_all(0x20));
    assert!(set.matches_all(0xffff_ffff));
    assert!(!set.matches_all(0xffff_ffdf));
    let clear = FieldValue32::new(5, 1, 0);
    assert!(clear.matches_all(0));
    assert!(!clear.matches_all(0x20));
}

#[test]
fn a_field_is_read_and_tested_at_its_shift() {
    let field = Field64 { mask: 0b11, shift: 2 };
    assert_eq!(field.read(0b1000), 2);
    assert_eq!(field.read(0b0111), 1);
    assert_eq!(field.read(u64::MAX), 3);
    assert!(field.is_set(0b0100));
    assert!(!field.is_set(0b0011));
    let top = Field64 { mask: 1, shift: 63 };
    assert!(top.is_set(1 << 63));
    assert_eq!(top.read(1 << 63), 1);
}

#[test]
fn a_register_lies_at_its_offset_from_the_block() {
    let block = MMIODerefWrapper::new(0x3f20_0000, 0xe8);
    assert_eq!(block.register(0), 0x3f20_0000);
    assert_eq!(block.register(0x94), 0x3f20_0094);
    assert_eq!(block.register(0xe7), 0x3f20_00e7);
}

#[test]
fn a_block_may_end_with_the_address_space() {
    let block = MMIODerefWrapper::new(usize::MAX - 0xe8, 0xe8);
    assert_eq!(block.register(0), usize::MAX - 0xe8);
    assert_eq!(block.register(0xe7), usize::MAX - 1);
    let block = MMIODerefWrapper::new(0, usize::MAX);
    assert_eq!(block.register(usize::MAX - 1), usize::MAX - 1);
}
