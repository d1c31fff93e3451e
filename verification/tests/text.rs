use memecycle::text::{i32_to_decimal, u64_to_decimal, usize_to_decimal};

#[test]
fn unsigned_decimal() {
    assert_eq!(u64_to_decimal(0), "0");
    assert_eq!(u64_to_decimal(7), "7");
    assert_eq!(u64_to_decimal(10), "10");
    assert_eq!(u64_to_decimal(12345), "12345");
    assert_eq!(u64_to_decimal(u64::MAX), u64::MAX.to_string());
    assert_eq!(usize_to_decimal(100), "100");
}

#[test]
fn signed_decimal() {
    assert_eq!(i32_to_decimal(0), "0");
    assert_eq!(i32_to_decimal(-1), "-1");
    assert_eq!(i32_to_decimal(42), "42");
    assert_eq!(i32_to_decimal(i32::MIN), "-2147483648");
    assert_eq!(i32_to_decimal(i32::MAX), "2147483647");
}
