use moonlight_os::text::{append_decimal, decimal_string};

#[test]
fn decimal_string_matches_the_standard_formatting() {
    for n in [0u64, 1, 9, 10, 11, 99, 100, 101, 999, 1000, 12345, 4294967295, 4294967296] {
        assert_eq!(decimal_string(n), format!("{}", n));
    }
    assert_eq!(decimal_string(u64::MAX), "18446744073709551615");
    assert_eq!(decimal_string(0), "0");
    assert_eq!(decimal_string(1_000_000_007), "1000000007");
}

#[test]
fn append_decimal_keeps_what_is_there() {
    let mut text = String::from("vector ");
    append_decimal(&mut text, 14);
    assert_eq!(text, "vector 14");
    append_decimal(&mut text, 0);
    assert_eq!(text, "vector 140");
    append_decimal(&mut text, 2048);
    assert_eq!(text, "vector 1402048");
}
