use libnvme::text::{push_decimal, push_hex_padded};
use libnvme::util::{
    c_field, cast_u32, cstr_to_str, decode_text, fixed_ascii_to_str, has_nul, len_u32,
    trim_padding,
};
use libnvme::wire::{push_le, push_zeros, u128_from_le_bytes};
use libnvme::Error;

#[test]
fn numbers_are_formatted() {
    let mut out = String::from("n=");
    push_decimal(&mut out, 0);
    out.push(' ');
    push_decimal(&mut out, u64::MAX);
    assert_eq!(out, "n=0 18446744073709551615");
    let mut out = String::new();
    push_hex_padded(&mut out, 0, 0);
    out.push(' ');
    push_hex_padded(&mut out, 0xabc, 5);
    out.push(' ');
    push_hex_padded(&mut out, u32::MAX, 4);
    assert_eq!(out, "0 00abc ffffffff");
}

#[test]
fn numbers_round_trip_on_the_wire() {
    let mut out: Vec<u8> = Vec::new();
    push_le(&mut out, 0x0102_0304_0506_0708, 8);
    push_le(&mut out, 0xabcd, 2);
    push_zeros(&mut out, 3);
    assert_eq!(out, vec![8, 7, 6, 5, 4, 3, 2, 1, 0xcd, 0xab, 0, 0, 0]);
    let mut sixteen: Vec<u8> = Vec::new();
    push_le(&mut sixteen, 5, 8);
    push_le(&mut sixteen, 6, 8);
    let bytes: [u8; 16] = sixteen.try_into().unwrap();
    assert_eq!(u128_from_le_bytes(&bytes), (6u128 << 64) + 5);
    assert_eq!(u128_from_le_bytes(&[0xff; 16]), u128::MAX);
}

#[test]
fn padding_is_trimmed_at_the_ends_only() {
    assert_eq!(trim_padding(b"  a b\0 "), b"a b");
    assert_eq!(trim_padding(b"\t\r\n"), b"");
    assert_eq!(trim_padding(b""), b"");
    assert_eq!(trim_padding(trim_padding(b" x ")), b"x");
    assert_eq!(fixed_ascii_to_str(b"  model   ").expect("text"), "model");
}

#[test]
fn fields_end_at_the_first_nul() {
    assert_eq!(c_field(b"ab\0c\0"), b"ab");
    assert_eq!(c_field(b"\0c"), b"");
    assert_eq!(c_field(b"abc"), b"abc");
}

#[test]
fn strings_decode_or_fail() {
    assert_eq!(decode_text("gr\u{fc}n".as_bytes()).expect("text"), "gr\u{fc}n");
    assert!(matches!(decode_text(&[0xff]), Err(Error::Utf8(_))));
    match decode_text(b"ab\xff") {
        Err(Error::Utf8(e)) => assert_eq!(e.valid_up_to(), 2),
        _ => panic!("expected the UTF-8 error"),
    }
    match fixed_ascii_to_str(b"  abc\xff ") {
        Err(Error::Utf8(e)) => assert_eq!(e.valid_up_to(), 3),
        _ => panic!("expected the UTF-8 error"),
    }
    assert_eq!(cstr_to_str(Some(b"x")).expect("text"), "x");
    assert!(matches!(cstr_to_str(None), Err(Error::NotAvailable)));
}

#[test]
fn nul_is_found_anywhere() {
    assert!(has_nul("\0"));
    assert!(has_nul("ab\0"));
    assert!(!has_nul(""));
    assert!(!has_nul("ab"));
}

#[test]
fn casts_keep_the_low_bits() {
    assert_eq!(cast_u32(-1), u32::MAX);
    assert_eq!(cast_u32(i32::MIN), 0x8000_0000);
    assert_eq!(cast_u32(5), 5);
    assert_eq!(len_u32(0), 0);
    assert_eq!(len_u32(0xffff_ffff), 0xffff_ffff);
}
