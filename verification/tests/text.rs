use qtablepdf::text::{decimal, exponent_text, pad_left, precision, same};

#[test]
fn exponents_get_a_sign_and_two_digits() {
    assert_eq!(exponent_text("1.5e-5"), "1.5e-05");
    assert_eq!(exponent_text("1.5e-15"), "1.5e-15");
    assert_eq!(exponent_text("-3.0e-7"), "-3.0e-07");
    assert_eq!(exponent_text("2e10"), "2e+10");
    assert_eq!(exponent_text("2e5"), "2e+05");
    assert_eq!(exponent_text("1.234e300"), "1.234e+300");
    assert_eq!(exponent_text("1.234e-300"), "1.234e-300");
}

#[test]
fn exponent_text_of_other_texts() {
    assert_eq!(exponent_text("12"), "12");
    assert_eq!(exponent_text(""), "");
    assert_eq!(exponent_text("1e"), "1e+");
    assert_eq!(exponent_text("1e--5"), "1e-05");
    assert_eq!(exponent_text("e7"), "e+07");
}

#[test]
fn digits_behind_the_point() {
    // 123.4 to four digits
    assert_eq!(precision(4, 2, false, false), 1);
    // 0.5 to four digits
    assert_eq!(precision(4, 0, true, false), 4);
    // 0.002 to four digits
    assert_eq!(precision(4, -2, true, false), 6);
    // 12345 and more to four digits
    assert_eq!(precision(4, 4, false, false), 0);
    assert_eq!(precision(4, 3, false, false), 0);
    assert_eq!(precision(1, 0, false, false), 0);
    // zero
    assert_eq!(precision(4, 0, false, true), 3);
    assert_eq!(precision(0, 0, false, true), 0);
    assert_eq!(precision(0, -1, true, false), 2);
    assert_eq!(precision(usize::MAX, i64::MIN, true, false), usize::MAX as u128 + (1u128 << 63));
}

#[test]
fn numbers_in_decimal_and_padding() {
    assert_eq!(decimal(0), "0");
    assert_eq!(decimal(7), "7");
    assert_eq!(decimal(1203), "1203");
    assert_eq!(decimal(u128::MAX), u128::MAX.to_string());
    assert_eq!(pad_left("7", 3, true), "007");
    assert_eq!(pad_left("7", 3, false), "  7");
    assert_eq!(pad_left("1234", 3, true), "1234");
    assert_eq!(pad_left("", 2, false), "  ");
    assert_eq!(pad_left("ab", 0, true), "ab");
}

#[test]
fn texts_are_compared_by_their_characters() {
    assert!(same("abc", "abc"));
    assert!(!same("abc", "abd"));
    assert!(!same("abc", "ab"));
    assert!(same("", ""));
}
