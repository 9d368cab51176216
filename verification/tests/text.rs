use emit_elasticsearch::text::{
    digit_char, push_decimal, push_escaped_char, push_four_digits, push_hex8, push_json_string,
    push_signed_decimal, push_three_digits, push_two_digits,
};

#[test]
fn digits_are_lower_case() {
    assert_eq!(digit_char(0), '0');
    assert_eq!(digit_char(9), '9');
    assert_eq!(digit_char(10), 'a');
    assert_eq!(digit_char(15), 'f');
}

#[test]
fn decimal_has_no_leading_zeros() {
    let mut out = String::new();
    push_decimal(&mut out, 0);
    out.push(' ');
    push_decimal(&mut out, 7);
    out.push(' ');
    push_decimal(&mut out, 1234567890);
    out.push(' ');
    push_decimal(&mut out, u64::MAX);
    assert_eq!(out, "0 7 1234567890 18446744073709551615");
}

#[test]
fn signed_decimal_has_a_sign_when_negative() {
    let mut out = String::new();
    push_signed_decimal(&mut out, -1);
    out.push(' ');
    push_signed_decimal(&mut out, 42);
    out.push(' ');
    push_signed_decimal(&mut out, i64::MIN);
    out.push(' ');
    push_signed_decimal(&mut out, i64::MAX);
    out.push(' ');
    push_signed_decimal(&mut out, 0);
    assert_eq!(out, "-1 42 -9223372036854775808 9223372036854775807 0");
}

#[test]
fn fixed_widths_are_padded_with_zeros() {
    let mut out = String::new();
    push_two_digits(&mut out, 7);
    push_two_digits(&mut out, 99);
    push_three_digits(&mut out, 5);
    push_three_digits(&mut out, 120);
    push_four_digits(&mut out, 0);
    push_four_digits(&mut out, 2014);
    assert_eq!(out, "079900512000002014");
}

#[test]
fn hex_has_eight_digits() {
    let mut out = String::new();
    push_hex8(&mut out, 0);
    out.push(' ');
    push_hex8(&mut out, 0xae9bf784);
    out.push(' ');
    push_hex8(&mut out, u32::MAX);
    out.push(' ');
    push_hex8(&mut out, 0x1a);
    assert_eq!(out, "00000000 ae9bf784 ffffffff 0000001a");
}

#[test]
fn characters_are_escaped_for_json() {
    let mut out = String::new();
    for c in ['"', '\\', '\n', '\r', '\t', '\u{8}', '\u{c}', '\u{0}', '\u{1f}', ' ', 'a', 'é', '/'] {
        push_escaped_char(&mut out, c);
        out.push('|');
    }
    assert_eq!(out, "\\\"|\\\\|\\n|\\r|\\t|\\b|\\f|\\u0000|\\u001f| |a|é|/|");
}

#[test]
fn json_strings_are_quoted() {
    let mut out = String::from("x");
    push_json_string(&mut out, "");
    push_json_string(&mut out, "say \"hi\"\n");
    push_json_string(&mut out, "日本");
    assert_eq!(out, "x\"\"\"say \\\"hi\\\"\\n\"\"日本\"");
}
