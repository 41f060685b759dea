use krust::bitmath::{u8stou16, u8stou32, u8stou64, u8tou16, u8tou32, u8tou64};
use krust::text::{hex_char, push_bytes, push_dec, push_hex, push_hex_line, push_str, text_of};

#[test]
fn u8tou16_is_big_endian() {
    assert_eq!(u8tou16(0x12, 0x34), 0x1234);
    assert_eq!(u8tou16(0, 0), 0);
    assert_eq!(u8tou16(0xFF, 0xFF), 0xFFFF);
}

#[test]
fn u8tou32_is_big_endian() {
    assert_eq!(u8tou32(0xDE, 0xAD, 0xBE, 0xEF), 0xDEAD_BEEF);
    assert_eq!(u8tou32(0, 0, 0, 1), 1);
}

#[test]
fn u8tou64_is_big_endian() {
    assert_eq!(u8tou64(1, 2, 3, 4, 5, 6, 7, 8), 0x0102_0304_0506_0708);
    assert_eq!(u8tou64(0xFF, 0, 0, 0, 0, 0, 0, 0), 0xFF00_0000_0000_0000);
}

#[test]
fn slices_are_little_endian() {
    let bytes = [0x55u8, 0xAA, 0x01, 0x02, 0x03, 0x04, 0x05, 0x06, 0x99];
    assert_eq!(u8stou16(&bytes), 0xAA55);
    assert_eq!(u8stou32(&bytes), 0x0201_AA55);
    assert_eq!(u8stou64(&bytes), 0x0605_0403_0201_AA55);
    assert_eq!(u8stou16(&bytes[7..9]), 0x9906);
}

#[test]
fn hex_digits() {
    assert_eq!(hex_char(0), b'0');
    assert_eq!(hex_char(9), b'9');
    assert_eq!(hex_char(10), b'A');
    assert_eq!(hex_char(15), b'F');
}

#[test]
fn hex_and_decimal_text() {
    let mut out = Vec::new();
    push_hex(&mut out, 0);
    push_str(&mut out, " ");
    push_hex(&mut out, 0xBEEF);
    push_str(&mut out, " ");
    push_dec(&mut out, 0);
    push_str(&mut out, " ");
    push_dec(&mut out, 1980);
    push_str(&mut out, " ");
    push_hex(&mut out, u64::MAX);
    assert_eq!(out, b"0 BEEF 0 1980 FFFFFFFFFFFFFFFF".to_vec());
}

#[test]
fn labelled_lines() {
    let mut out = text_of("head\n");
    push_hex_line(&mut out, "Value: 0x", 0x2A);
    push_bytes(&mut out, b"tail");
    assert_eq!(out, b"head\nValue: 0x2A\ntail".to_vec());
}

#[test]
fn hex_text_reads_back() {
    for v in [0u64, 1, 15, 16, 255, 0x1234_5678, u64::MAX] {
        let mut out = Vec::new();
        push_hex(&mut out, v);
        let parsed = u64::from_str_radix(std::str::from_utf8(&out).unwrap(), 16).unwrap();
        assert_eq!(parsed, v);
    }
}

#[test]
fn decimal_text_reads_back() {
    for v in [0u64, 7, 10, 99, 100, 123_456_789, u64::MAX] {
        let mut out = Vec::new();
        push_dec(&mut out, v);
        assert_eq!(std::str::from_utf8(&out).unwrap().parse::<u64>().unwrap(), v);
    }
}
