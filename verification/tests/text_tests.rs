use pc_core::text::{dec_string, hex2_string, hex4_string};

#[test]
fn hex_strings() {
    assert_eq!(hex2_string(0x00), "00");
    assert_eq!(hex2_string(0x0F), "0f");
    assert_eq!(hex2_string(0xA7), "a7");
    assert_eq!(hex4_string(0x0000), "0000");
    assert_eq!(hex4_string(0xBEEF), "beef");
    assert_eq!(hex4_string(0x0102), "0102");
}

#[test]
fn decimal_strings() {
    assert_eq!(dec_string(0), "0");
    assert_eq!(dec_string(7), "7");
    assert_eq!(dec_string(65536), "65536");
    assert_eq!(dec_string(12345), "12345");
    assert_eq!(dec_string(u64::MAX), "18446744073709551615");
}
