use saxaboom::bitfield::__BindgenBitfieldUnit;

#[test]
fn new_keeps_bits() {
    let u = __BindgenBitfieldUnit::new(vec![0b0000_0101, 0b1000_0000]);
    assert!(u.get_bit(0));
    assert!(!u.get_bit(1));
    assert!(u.get_bit(2));
    assert!(!u.get_bit(7));
    assert!(!u.get_bit(8));
    assert!(u.get_bit(15));
}

#[test]
fn set_bit_changes_one_bit_only() {
    let mut u = __BindgenBitfieldUnit::new(vec![0u8; 2]);
    u.set_bit(9, true);
    for i in 0..16 {
        assert_eq!(u.get_bit(i), i == 9);
    }
    u.set_bit(9, false);
    for i in 0..16 {
        assert!(!u.get_bit(i));
    }
}

#[test]
fn get_reads_a_window() {
    let u = __BindgenBitfieldUnit::new(vec![0xFF, 0x00, 0xF0]);
    assert_eq!(u.get(0, 8), 0xFF);
    assert_eq!(u.get(4, 8), 0x0F);
    assert_eq!(u.get(8, 8), 0x00);
    assert_eq!(u.get(16, 8), 0xF0);
    assert_eq!(u.get(0, 24), 0xF000FF);
}

#[test]
fn set_writes_a_window() {
    let mut u = __BindgenBitfieldUnit::new(vec![0u8; 8]);
    u.set(0, 24, 0xABCDEF);
    u.set(24, 8, 0x12);
    u.set(32, 24, 0x345678);
    u.set(56, 8, 0x9A);
    assert_eq!(u.get(0, 24), 0xABCDEF);
    assert_eq!(u.get(24, 8), 0x12);
    assert_eq!(u.get(32, 24), 0x345678);
    assert_eq!(u.get(56, 8), 0x9A);
    assert_eq!(u.get(0, 64), 0x9A345678_12ABCDEF);
}

#[test]
fn set_truncates_to_width() {
    let mut u = __BindgenBitfieldUnit::new(vec![0u8; 8]);
    u.set(0, 24, 0xFF_FF_FF_FF);
    assert_eq!(u.get(0, 24), 0xFF_FF_FF);
    assert_eq!(u.get(24, 8), 0);
}

#[test]
fn raytracing_instance_bitfield_layout() {
    // The instance-descriptor bitfield packs the instance id at bit 0 over
    // 24 bits, the mask at bit 24 over 8, the hit-group contribution at bit
    // 32 over 24 and the flags at bit 56 over 8.
    let mut u = __BindgenBitfieldUnit::new(vec![0u8; 8]);
    u.set(0, 24, 0x00_1234);
    u.set(24, 8, 0xFF);
    u.set(32, 24, 0x00_0042);
    u.set(56, 8, 0x01);
    assert_eq!(u.get(0, 24), 0x1234);
    assert_eq!(u.get(24, 8), 0xFF);
    assert_eq!(u.get(32, 24), 0x42);
    assert_eq!(u.get(56, 8), 0x01);
}

#[test]
fn new_bitfield_1_packs_all_four_fields() {
    let u = saxaboom::bitfield::new_bitfield_1(0xAB_CDEF, 0x12, 0x34_5678, 0x9A);
    assert_eq!(u.get(0, 24), 0xAB_CDEF);
    assert_eq!(u.get(24, 8), 0x12);
    assert_eq!(u.get(32, 24), 0x34_5678);
    assert_eq!(u.get(56, 8), 0x9A);
}

#[test]
fn new_bitfield_1_truncates_to_field_widths() {
    let u = saxaboom::bitfield::new_bitfield_1(0xFF_FF_FF_FF, 0xFF_FF_FF_FF, 0, 0);
    assert_eq!(u.get(0, 24), 0xFF_FF_FF);
    assert_eq!(u.get(24, 8), 0xFF);
    assert_eq!(u.get(32, 24), 0);
    assert_eq!(u.get(56, 8), 0);
}
