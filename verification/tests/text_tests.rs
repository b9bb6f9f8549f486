use sunk::text::{chars_of, push_decimal, push_hex, str_eq};

#[test]
fn chars_of_keeps_every_character() {
    assert_eq!(chars_of(""), Vec::<char>::new());
    assert_eq!(chars_of("a.é€"), vec!['a', '.', 'é', '€']);
}

#[test]
fn str_eq_compares_characters() {
    assert!(str_eq("", ""));
    assert!(str_eq("status", "status"));
    assert!(!str_eq("status", "statuS"));
    assert!(!str_eq("ok", "okay"));
    assert!(!str_eq("okay", "ok"));
    assert!(str_eq("é€", "é€"));
    assert!(!str_eq("é", "e"));
}

#[test]
fn push_decimal_appends_the_numeral() {
    let mut out = String::from("n=");
    push_decimal(&mut out, 0);
    out.push(',');
    push_decimal(&mut out, 9);
    out.push(',');
    push_decimal(&mut out, 10);
    out.push(',');
    push_decimal(&mut out, 5661);
    out.push(',');
    push_decimal(&mut out, u64::MAX);
    assert_eq!(out, "n=0,9,10,5661,18446744073709551615");
}

#[test]
fn push_hex_writes_two_lower_case_digits_a_byte() {
    let mut out = String::from("x");
    push_hex(&mut out, &[]);
    assert_eq!(out, "x");
    push_hex(&mut out, &[0x00, 0x09, 0x0a, 0x1f, 0xa0, 0xff]);
    assert_eq!(out, "x00090a1fa0ff");
}
