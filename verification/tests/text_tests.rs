use realestate_client::text::{
    hex_digit, push_decimal, push_json_string, push_key, push_millionths, push_signed_decimal,
};

#[test]
fn decimals_have_no_leading_zeros() {
    let mut out = String::new();
    push_decimal(&mut out, 0);
    out.push(' ');
    push_decimal(&mut out, 9);
    out.push(' ');
    push_decimal(&mut out, 10);
    out.push(' ');
    push_decimal(&mut out, 1234567890);
    out.push(' ');
    push_decimal(&mut out, u64::MAX);
    assert_eq!(out, "0 9 10 1234567890 18446744073709551615");
}

#[test]
fn signed_decimals_carry_their_sign() {
    let mut out = String::new();
    push_signed_decimal(&mut out, 0);
    out.push(' ');
    push_signed_decimal(&mut out, -1);
    out.push(' ');
    push_signed_decimal(&mut out, i64::MIN);
    out.push(' ');
    push_signed_decimal(&mut out, i64::MAX);
    assert_eq!(out, "0 -1 -9223372036854775808 9223372036854775807");
}

#[test]
fn millionths_end_without_needless_zeros() {
    let cases: [(i32, &str); 12] = [
        (0, "0.0"),
        (1, "0.000001"),
        (10, "0.00001"),
        (-999999, "-0.999999"),
        (1000000, "1.0"),
        (-1000000, "-1.0"),
        (47359856, "47.359856"),
        (8050001, "8.050001"),
        (8550000, "8.55"),
        (47366670, "47.36667"),
        (-33868820, "-33.86882"),
        (100000, "0.1"),
    ];
    for (value, text) in cases {
        let mut out = String::from("x");
        push_millionths(&mut out, value);
        assert_eq!(out, format!("x{}", text));
    }
}

#[test]
fn millionths_read_as_the_shortest_numeral_of_the_angle() {
    for angle in [47.359856f32, 8.541819, 47.36667, 8.55, -33.86882, 0.0, 1.0, 90.0, -180.0] {
        let shortest: f64 = angle.to_string().parse().unwrap();
        let value = (shortest * 1_000_000.0).round() as i32;
        let mut out = String::new();
        push_millionths(&mut out, value);
        assert_eq!(out, serde_json::to_string(&angle).unwrap());
    }
}

#[test]
fn hexadecimal_digits_are_lower_case() {
    let digits: String = (0..16).map(hex_digit).collect();
    assert_eq!(digits, "0123456789abcdef");
}

#[test]
fn strings_are_escaped_as_the_parser_expects() {
    let samples = [
        "",
        "plain",
        "quote\" and backslash\\",
        "line\nfeed\rreturn\ttab",
        "\u{8}\u{c}\u{0}\u{1f}\u{7f}",
        "z\u{fc}rich \u{1f3e0}",
    ];
    for sample in samples {
        let mut out = String::new();
        push_json_string(&mut out, sample);
        assert_eq!(out, serde_json::to_string(sample).unwrap());
        let back: String = serde_json::from_str(&out).unwrap();
        assert_eq!(back, sample);
    }
    let mut out = String::new();
    push_json_string(&mut out, "a\"b\\\n\u{1}");
    assert_eq!(out, "\"a\\\"b\\\\\\n\\u0001\"");
}

#[test]
fn keys_are_quoted_and_followed_by_a_colon() {
    let mut out = String::from("{");
    push_key(&mut out, "sortBy");
    assert_eq!(out, "{\"sortBy\":");
}
