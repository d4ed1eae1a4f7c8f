//! String values and their documented conversions.

use cidre::ns;

#[test]
fn string_basics() {
    let s = ns::String::with_str("10.5");

    assert_eq!(s.len(), 4);
    assert!(!s.is_empty());

    assert_eq!(s.to_i32(), 10);
    assert_eq!(s.to_integer(), 10);
    assert_eq!(s.to_bool(), true);

    let sub = s.substring(1..2);
    assert_eq!(sub.to_i32(), 0);
    assert_eq!(sub.to_bool(), false);

    let zero = ns::String::with_str("0");
    assert!(zero.is_equal_to(&sub));

    let sub = s.substring(3..4);
    assert_eq!(sub.to_i32(), 5);
}

#[test]
fn array_basics() {
    let one = ns::Number::with_i32(5);
    let arr: Vec<ns::Number> = vec![one];
    let array = ns::Array::from_slice(arr);
    assert_eq!(1, array.len());
    assert_eq!(5, array.get(0).as_i32());

    let mut k = 0;
    for _i in array.iter() {
        k += 1;
    }

    assert_eq!(1, k);
}

#[test]
fn uuid_basics() {
    let uuid1 = cidre::cf::Uuid::from_bytes(vec![
        0x0D, 0xB4, 0xDD, 0xE2, 0x4B, 0x5F, 0x4F, 0xAB, 0xBF, 0xBB, 0xA9, 0x7F, 0x51, 0xAB,
        0x40, 0x51,
    ]);
    let str1 = uuid1.to_cf_string();
    assert!(!str1.is_empty());
    let str2 = uuid1.to_cf_string();
    assert!(str1.is_equal_to(&str2));

    let uuid3 = cidre::cf::Uuid::from_bytes(vec![0; 16]);
    let str3 = uuid3.to_cf_string();
    assert!(!str3.is_empty());

    assert!(!str1.is_equal_to(&str3));
}

#[test]
fn uuid_rendering() {
    let uuid = cidre::cf::Uuid::from_bytes(vec![
        0x0D, 0xB4, 0xDD, 0xE2, 0x4B, 0x5F, 0x4F, 0xAB, 0xBF, 0xBB, 0xA9, 0x7F, 0x51, 0xAB,
        0x40, 0x51,
    ]);
    let rendered = uuid.to_cf_string();
    let expected = ns::String::with_str("0DB4DDE2-4B5F-4FAB-BFBB-A97F51AB4051");
    assert!(rendered.is_equal_to(&expected));
}

#[test]
fn integer_parsing() {
    assert_eq!(ns::String::with_str("  -42abc").to_i32(), -42);
    assert_eq!(ns::String::with_str("+7").to_i32(), 7);
    assert_eq!(ns::String::with_str("abc").to_i32(), 0);
    assert_eq!(ns::String::with_str("").to_i32(), 0);
    assert_eq!(ns::String::with_str("-").to_i32(), 0);
    assert_eq!(ns::String::with_str("2147483647").to_i32(), i32::MAX);
    assert_eq!(ns::String::with_str("2147483648").to_i32(), i32::MAX);
    assert_eq!(ns::String::with_str("99999999999999").to_i32(), i32::MAX);
    assert_eq!(ns::String::with_str("-2147483648").to_i32(), i32::MIN);
    assert_eq!(ns::String::with_str("-2147483649").to_i32(), i32::MIN);
    assert_eq!(ns::String::with_str("9223372036854775807").to_i64(), i64::MAX);
    assert_eq!(ns::String::with_str("9223372036854775808").to_i64(), i64::MAX);
    assert_eq!(ns::String::with_str("-9223372036854775808").to_i64(), i64::MIN);
    assert_eq!(ns::String::with_str("-99999999999999999999").to_i64(), i64::MIN);
    assert_eq!(ns::String::with_str("\t 123 456").to_i64(), 123);
    assert_eq!(ns::String::with_str("0012").to_integer(), 12);
}

#[test]
fn truth_values() {
    assert!(ns::String::with_str("Y").to_bool());
    assert!(ns::String::with_str("t").to_bool());
    assert!(ns::String::with_str(" -0009").to_bool());
    assert!(ns::String::with_str("1").to_bool());
    assert!(!ns::String::with_str("00").to_bool());
    assert!(!ns::String::with_str("x").to_bool());
    assert!(!ns::String::with_str("").to_bool());
    assert!(!ns::String::with_str(" +").to_bool());
}

#[test]
fn lowercasing() {
    let s = ns::String::with_str("AbC-Z");
    let lower = s.lowercased();
    let expected = ns::String::with_str("abc-z");
    assert!(lower.is_equal_to(&expected));
}

#[test]
fn byte_lengths() {
    let ascii = ns::String::with_str("abc");
    assert_eq!(ascii.len_of_bytes(ns::string::Encoding::Utf8), 3);
    assert_eq!(ascii.len_of_bytes(ns::string::Encoding::Ascii), 3);
    assert_eq!(ascii.c_string(ns::string::Encoding::Ascii).unwrap(), b"abc".to_vec());

    let wide = ns::String::with_str("a\u{e9}\u{20ac}");
    assert_eq!(wide.len_of_bytes(ns::string::Encoding::Utf8), 6);
    assert_eq!(wide.len_of_bytes(ns::string::Encoding::Ascii), 0);
    assert!(wide.c_string(ns::string::Encoding::Ascii).is_none());
}

#[test]
fn number_truncation() {
    let n = ns::Number::with_i64(0x1_0000_0005);
    assert_eq!(n.as_i32(), 5);
    assert_eq!(n.as_i64(), 0x1_0000_0005);
    let m = ns::Number::with_i32(-3);
    assert_eq!(m.as_i32(), -3);
}

#[test]
fn mutable_copy() {
    let s = ns::String::with_str("keep");
    let copy = s.copy_mut();
    assert!(copy.string.is_equal_to(&s));
}
