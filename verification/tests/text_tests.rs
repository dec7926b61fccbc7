use prog_rs::text::{
    digit, push_decimal, push_duration, push_hundredths, push_padded, push_repeat, push_tenths,
    rounded_div,
};

fn decimal(n: u128) -> String {
    let mut out = String::new();
    push_decimal(&mut out, n);
    out
}

fn duration(nanos: u128) -> String {
    let mut out = String::new();
    push_duration(&mut out, nanos);
    out
}

#[test]
fn rounded_div_rounds_a_half_up() {
    assert_eq!(rounded_div(5, 2), 3);
    assert_eq!(rounded_div(7, 2), 4);
    assert_eq!(rounded_div(4, 3), 1);
    assert_eq!(rounded_div(5, 3), 2);
    assert_eq!(rounded_div(0, 7), 0);
    assert_eq!(rounded_div(6, 3), 2);
    assert_eq!(rounded_div(u128::MAX, 1), u128::MAX);
    assert_eq!(rounded_div(u128::MAX, u128::MAX), 1);
    assert_eq!(rounded_div(u128::MAX - 1, u128::MAX), 1);
    assert_eq!(rounded_div(u128::MAX / 2, u128::MAX), 0);
}

#[test]
fn digits() {
    let all: Vec<char> = (0u8..10).map(digit).collect();
    assert_eq!(all, vec!['0', '1', '2', '3', '4', '5', '6', '7', '8', '9']);
}

#[test]
fn decimal_numbers() {
    assert_eq!(decimal(0), "0");
    assert_eq!(decimal(7), "7");
    assert_eq!(decimal(10), "10");
    assert_eq!(decimal(12_345), "12345");
    assert_eq!(decimal(u128::MAX), "340282366920938463463374607431768211455");
}

#[test]
fn appending_keeps_what_was_there() {
    let mut out = String::from("n=");
    push_decimal(&mut out, 42);
    out.push(' ');
    push_tenths(&mut out, 1_234);
    out.push(' ');
    push_hundredths(&mut out, 5);
    out.push(' ');
    push_hundredths(&mut out, 123_456);
    out.push(' ');
    push_tenths(&mut out, 0);
    assert_eq!(out, "n=42 123.4 0.05 1234.56 0.0");
}

#[test]
fn runs_of_one_character() {
    let mut out = String::from("[");
    push_repeat(&mut out, '=', 3);
    push_repeat(&mut out, '>', 1);
    push_repeat(&mut out, ' ', 0);
    push_repeat(&mut out, '\u{2591}', 2);
    out.push(']');
    assert_eq!(out, "[===>\u{2591}\u{2591}]");
}

#[test]
fn right_aligned_fields() {
    let mut out = String::new();
    push_padded(&mut out, "1.5", 5);
    out.push('|');
    push_padded(&mut out, "100.0", 5);
    out.push('|');
    push_padded(&mut out, "1200.0", 5);
    out.push('|');
    push_padded(&mut out, "\u{e9}", 3);
    assert_eq!(out, "  1.5|100.0|1200.0|  \u{e9}");
}

#[test]
fn durations_take_the_largest_unit_they_reach() {
    assert_eq!(duration(0), "0.0ns");
    assert_eq!(duration(999), "999.0ns");
    assert_eq!(duration(1_000), "1.0\u{b5}s");
    assert_eq!(duration(1_500), "1.5\u{b5}s");
    assert_eq!(duration(2_500_000), "2.5ms");
    assert_eq!(duration(999_949_999), "999.9ms");
    assert_eq!(duration(999_999_999), "1000.0ms");
    assert_eq!(duration(1_000_000_000), "1.0s");
    assert_eq!(duration(1_500_000_000), "1.5s");
    assert_eq!(duration(1_250_000_000), "1.3s");
    assert_eq!(duration(61_000_000_000), "61.0s");
}
