use sensor_node::addr::nwk_addr;

#[test]
fn nwk_addr_examples() {
    assert_eq!(nwk_addr(0xffffffffe00c00fe, 0x00000003), 0x000c00fe);
    assert_eq!(nwk_addr(0xffffffffe00c00ff, 0x00000003), 0x000c00ff);
    assert_eq!(nwk_addr(0x00000000e00c00ff, 0x00fc0000), 0x0000007f);
}

#[test]
fn nwk_addr_applies_each_class_mask() {
    // Low 32 bits of the device identifier all ones, so the surviving
    // bits show the applied mask exactly.
    let eui: u64 = 0xffff_ffff_ffff_ffff;
    assert_eq!(nwk_addr(eui, 0x00e0_0000), 0x0000_007f);
    assert_eq!(nwk_addr(eui, 0x00c0_0000), 0x0000_03ff);
    assert_eq!(nwk_addr(eui, 0x00a0_0000), 0x0000_1fff);
    assert_eq!(nwk_addr(eui, 0x0080_0000), 0x0000_ffff);
    assert_eq!(nwk_addr(eui, 0x0060_0000), 0x0003_ffff);
    assert_eq!(nwk_addr(eui, 0x0040_0000), 0x000f_ffff);
    assert_eq!(nwk_addr(eui, 0x0020_0000), 0x00ff_ffff);
    assert_eq!(nwk_addr(eui, 0x0000_0000), 0x01ff_ffff);
}

#[test]
fn nwk_addr_class_comes_from_bits_21_to_23_only() {
    let eui: u64 = 0xffff_ffff_ffff_ffff;
    // Bits outside the class field change nothing.
    assert_eq!(nwk_addr(eui, 0xffe1_2345), 0x0000_007f);
    assert_eq!(nwk_addr(eui, 0x1f1f_ffff), 0x01ff_ffff);
    // Only the high 32 bits of the identifier are discarded.
    assert_eq!(nwk_addr(0x1234_5678_0000_0042, 0x00e0_0000), 0x42);
}
