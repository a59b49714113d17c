use session_capture::urls::{get_school_url, i32_to_decimal};

#[test]
fn school_url_known_value() {
    assert_eq!(
        get_school_url(21471167),
        "https://bcs.edsby.com/p/District/21471167"
    );
}

#[test]
fn decimal_zero() {
    assert_eq!(i32_to_decimal(0), "0");
}

#[test]
fn decimal_positive() {
    assert_eq!(i32_to_decimal(90210), "90210");
}

#[test]
fn decimal_negative() {
    assert_eq!(i32_to_decimal(-42), "-42");
}

#[test]
fn decimal_extremes() {
    assert_eq!(i32_to_decimal(i32::MAX), "2147483647");
    assert_eq!(i32_to_decimal(i32::MIN), "-2147483648");
}
