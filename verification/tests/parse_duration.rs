use duckdns::parse_duration::{parse_duration, Duration, ParseError};

#[test]
fn it_parses() {
    assert_eq!(Duration::from_secs(1), parse_duration("1s").unwrap());
    assert_eq!(Duration::from_secs(300), parse_duration("5m").unwrap());
    assert_eq!(Duration::from_secs(43_200), parse_duration("12h").unwrap());
    assert_eq!(Duration::from_secs(172_800), parse_duration("2d").unwrap());
    assert_eq!(
        Duration::from_secs(2_419_200),
        parse_duration("4w").unwrap()
    );
}

#[test]
fn zero_is_an_amount() {
    assert_eq!(Duration::from_secs(0), parse_duration("0s").unwrap());
    assert_eq!(Duration::from_secs(0), parse_duration("0w").unwrap());
}

#[test]
fn leading_zero_is_refused() {
    assert!(matches!(
        parse_duration("05s"),
        Err(ParseError::UnrecognizedInput("5s"))
    ));
}

#[test]
fn missing_unit_is_refused() {
    assert!(matches!(
        parse_duration("12"),
        Err(ParseError::UnrecognizedInput(""))
    ));
    assert!(matches!(
        parse_duration("12x"),
        Err(ParseError::UnrecognizedInput("x"))
    ));
}

#[test]
fn missing_amount_is_refused() {
    assert!(matches!(
        parse_duration("m"),
        Err(ParseError::UnrecognizedInput("m"))
    ));
    assert!(matches!(
        parse_duration(""),
        Err(ParseError::UnrecognizedInput(""))
    ));
}

#[test]
fn trailing_text_is_refused() {
    assert!(matches!(
        parse_duration("5m "),
        Err(ParseError::UnrecognizedInput(" "))
    ));
    assert!(matches!(
        parse_duration("5ms"),
        Err(ParseError::UnrecognizedInput("s"))
    ));
}

#[test]
fn largest_amount_of_seconds_fits() {
    assert_eq!(
        Duration::from_secs(u64::MAX),
        parse_duration("18446744073709551615s").unwrap()
    );
}

#[test]
fn amount_beyond_64_bits_is_a_bad_integer() {
    assert!(matches!(
        parse_duration("18446744073709551616s"),
        Err(ParseError::BadInt(_))
    ));
}

#[test]
fn span_beyond_64_bits_overflows() {
    assert!(matches!(
        parse_duration("18446744073709551615m"),
        Err(ParseError::Overflow)
    ));
    assert!(matches!(
        parse_duration("30500568904944w"),
        Err(ParseError::Overflow)
    ));
    assert_eq!(
        Duration::from_secs(30_500_568_904_943 * 604_800),
        parse_duration("30500568904943w").unwrap()
    );
}

#[test]
fn duration_errors_are_told_in_words() {
    assert_eq!(
        parse_duration("5 m").unwrap_err().to_string(),
        "unrecognized input \" m\""
    );
    assert_eq!(
        parse_duration("\"").unwrap_err().to_string(),
        "unrecognized input \"\\\"\""
    );
    assert_eq!(
        parse_duration("18446744073709551616s")
            .unwrap_err()
            .to_string(),
        "number too large to fit in target type"
    );
    assert_eq!(
        parse_duration("18446744073709551615w")
            .unwrap_err()
            .to_string(),
        "value out of range"
    );
}

#[test]
fn every_unit_is_read() {
    for (text, secs) in [
        ("7s", 7),
        ("7m", 420),
        ("7h", 25_200),
        ("7d", 604_800),
        ("7w", 4_233_600),
        ("10s", 10),
        ("100m", 6_000),
    ] {
        assert_eq!(parse_duration(text).unwrap().as_secs(), secs, "{}", text);
    }
    for text in ["7S", "7M", "7y", "7ms", "7 s", "-7s", "+7s", "7.5s", "s7", "７s"] {
        assert!(
            matches!(parse_duration(text), Err(ParseError::UnrecognizedInput(_))),
            "{}",
            text
        );
    }
}
