use invoice_maker::decimal::{decimal_string, push_decimal};
use invoice_maker::layout::{format_amount, format_total};

#[test]
fn zero_is_a_single_digit() {
    assert_eq!(decimal_string(0), "0");
}

#[test]
fn single_digits() {
    let expected = ["0", "1", "2", "3", "4", "5", "6", "7", "8", "9"];
    for (n, text) in expected.iter().enumerate() {
        assert_eq!(decimal_string(n as i128), *text);
    }
}

#[test]
fn digits_come_most_significant_first() {
    assert_eq!(decimal_string(10), "10");
    assert_eq!(decimal_string(1500), "1500");
    assert_eq!(decimal_string(9_876_543_210), "9876543210");
}

#[test]
fn no_separators_and_no_padding() {
    assert_eq!(decimal_string(1_000_000), "1000000");
    assert_eq!(decimal_string(7), "7");
}

#[test]
fn negative_numbers_lead_with_a_minus() {
    assert_eq!(decimal_string(-1), "-1");
    assert_eq!(decimal_string(-50), "-50");
    assert_eq!(decimal_string(-1_000_000), "-1000000");
}

#[test]
fn the_ends_of_the_range() {
    assert_eq!(decimal_string(i128::MAX), "170141183460469231731687303715884105727");
    assert_eq!(decimal_string(i128::MIN), "-170141183460469231731687303715884105728");
}

#[test]
fn decimal_agrees_with_the_standard_formatting() {
    let samples: [i128; 9] = [0, 9, 10, 99, 100, -9, -10, 2_147_483_647, -2_147_483_648];
    for n in samples {
        assert_eq!(decimal_string(n), format!("{}", n));
    }
}

#[test]
fn push_decimal_appends_to_what_is_there() {
    let mut text = String::from("n=");
    push_decimal(&mut text, 42);
    push_decimal(&mut text, -7);
    assert_eq!(text, "n=42-7");
}

#[test]
fn different_numbers_have_different_texts() {
    let samples: [i128; 8] = [0, 1, -1, 10, -10, 100, 101, 110];
    for a in samples {
        for b in samples {
            assert_eq!(decimal_string(a) == decimal_string(b), a == b);
        }
    }
}

#[test]
fn amount_1500_renders_as_dollar_1500() {
    assert_eq!(format_amount(1500), "$1500");
}

#[test]
fn amount_zero_renders_as_dollar_zero() {
    assert_eq!(format_amount(0), "$0");
}

#[test]
fn negative_amount_keeps_its_sign_after_the_currency_sign() {
    assert_eq!(format_amount(-100), "$-100");
    assert_eq!(format_amount(-1), "$-1");
}

#[test]
fn amounts_at_the_ends_of_the_range() {
    assert_eq!(format_amount(i32::MAX), "$2147483647");
    assert_eq!(format_amount(i32::MIN), "$-2147483648");
}

#[test]
fn amount_formatting_gives_the_same_text_every_time() {
    let first = format_amount(1500);
    let second = format_amount(1500);
    assert_eq!(first, second);
    assert_eq!(second, "$1500");
}

#[test]
fn total_text_has_its_label() {
    assert_eq!(format_total(0), "TOTAL $0");
    assert_eq!(format_total(-50), "TOTAL $-50");
    assert_eq!(format_total(4_294_967_294), "TOTAL $4294967294");
}
