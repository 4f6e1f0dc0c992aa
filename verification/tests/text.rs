use auth_core::text::decimal_text;

#[test]
fn decimal_notation() {
    assert_eq!(decimal_text(0), "0");
    assert_eq!(decimal_text(7), "7");
    assert_eq!(decimal_text(10), "10");
    assert_eq!(decimal_text(1008), "1008");
    assert_eq!(decimal_text(-1), "-1");
    assert_eq!(decimal_text(-120), "-120");
    assert_eq!(decimal_text(i32::MAX), "2147483647");
    assert_eq!(decimal_text(i32::MIN), "-2147483648");
}

#[test]
fn decimal_notation_agrees_with_the_standard_one() {
    let mut n: i32 = -1_000_003;
    while n < 1_000_000 {
        assert_eq!(decimal_text(n), n.to_string());
        n += 7_919;
    }
}
