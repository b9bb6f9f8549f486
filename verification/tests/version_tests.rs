use sunk::version::ApiVersion;

#[test]
fn parses_three_numbers() {
    assert_eq!(ApiVersion::parse("1.14.0"), Some(ApiVersion::new(1, 14, 0)));
    assert_eq!(ApiVersion::parse("0.0.0"), Some(ApiVersion::new(0, 0, 0)));
    assert_eq!(ApiVersion::parse("10.200.3000"), Some(ApiVersion::new(10, 200, 3000)));
}

#[test]
fn parse_takes_leading_zeros() {
    assert_eq!(ApiVersion::parse("01.002.0"), Some(ApiVersion::new(1, 2, 0)));
}

#[test]
fn parse_takes_the_largest_number() {
    assert_eq!(
        ApiVersion::parse("18446744073709551615.0.18446744073709551615"),
        Some(ApiVersion::new(u64::MAX, 0, u64::MAX))
    );
}

#[test]
fn parse_refuses_a_number_too_large() {
    assert_eq!(ApiVersion::parse("18446744073709551616.0.0"), None);
    assert_eq!(ApiVersion::parse("1.99999999999999999999999.0"), None);
}

#[test]
fn parse_refuses_other_shapes() {
    for text in [
        "", ".", "..", "1", "1.14", "1.14.", ".14.0", "1..0", "1.14.0.", "1.14.0.1", "1.14.x",
        "a.b.c", "1.14.0 ", " 1.14.0", "+1.14.0", "-1.14.0", "1,14,0", "1.１4.0",
    ] {
        assert_eq!(ApiVersion::parse(text), None, "{:?}", text);
    }
}

#[test]
fn order_is_by_number_not_by_text() {
    let v1_9 = ApiVersion::new(1, 9, 0);
    let v1_10 = ApiVersion::new(1, 10, 0);
    assert!(v1_10.at_least(&v1_9));
    assert!(!v1_9.at_least(&v1_10));
    let parsed_9 = ApiVersion::parse("1.9.0").unwrap();
    let parsed_10 = ApiVersion::parse("1.10.0").unwrap();
    assert!(parsed_10.at_least(&parsed_9));
    assert!(!parsed_9.at_least(&parsed_10));
}

#[test]
fn order_looks_at_major_then_minor_then_patch() {
    let v = ApiVersion::new(1, 13, 0);
    assert!(v.at_least(&v));
    assert!(ApiVersion::new(2, 0, 0).at_least(&v));
    assert!(!ApiVersion::new(0, 99, 99).at_least(&v));
    assert!(ApiVersion::new(1, 13, 1).at_least(&v));
    assert!(!ApiVersion::new(1, 12, 9).at_least(&v));
    assert!(ApiVersion::new(1, 14, 0).at_least(&ApiVersion::new(1, 13, 7)));
}

#[test]
fn render_joins_the_numbers_with_dots() {
    assert_eq!(ApiVersion::new(1, 14, 0).render(), "1.14.0");
    assert_eq!(ApiVersion::new(0, 0, 0).render(), "0.0.0");
    assert_eq!(
        ApiVersion::new(u64::MAX, 10, 109).render(),
        "18446744073709551615.10.109"
    );
}

#[test]
fn parse_undoes_render() {
    for v in [
        ApiVersion::new(1, 14, 0),
        ApiVersion::new(0, 0, 0),
        ApiVersion::new(u64::MAX, 1, 1000000),
    ] {
        assert_eq!(ApiVersion::parse(v.render().as_str()), Some(v));
    }
}
