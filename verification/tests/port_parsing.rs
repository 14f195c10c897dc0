use renmap::port::{parse_port, PortParseError};
use renmap::text::decimal_string;

#[test]
fn port_plain_digits() {
    assert_eq!(parse_port("22"), Ok(22));
    assert_eq!(parse_port("0"), Ok(0));
    assert_eq!(parse_port("65535"), Ok(65535));
    assert_eq!(parse_port("00080"), Ok(80));
}

#[test]
fn port_leading_plus() {
    assert_eq!(parse_port("+443"), Ok(443));
    assert_eq!(parse_port("+"), Err(PortParseError::InvalidDigit));
    assert_eq!(parse_port("++1"), Err(PortParseError::InvalidDigit));
}

#[test]
fn port_empty() {
    assert_eq!(parse_port(""), Err(PortParseError::Empty));
}

#[test]
fn port_invalid_digits() {
    assert_eq!(parse_port("-1"), Err(PortParseError::InvalidDigit));
    assert_eq!(parse_port("22 "), Err(PortParseError::InvalidDigit));
    assert_eq!(parse_port(" 22"), Err(PortParseError::InvalidDigit));
    assert_eq!(parse_port("8a"), Err(PortParseError::InvalidDigit));
    assert_eq!(parse_port("٣"), Err(PortParseError::InvalidDigit));
}

#[test]
fn port_too_large() {
    assert_eq!(parse_port("65536"), Err(PortParseError::TooLarge));
    assert_eq!(parse_port("99999999999999999999"), Err(PortParseError::TooLarge));
    // the value passes 65535 before the stray character is reached
    assert_eq!(parse_port("99999x"), Err(PortParseError::TooLarge));
    // the stray character comes first
    assert_eq!(parse_port("9x9999"), Err(PortParseError::InvalidDigit));
}

#[test]
fn port_agrees_with_std() {
    let samples = [
        "", "+", "-", "0", "1", "22", "+22", "065535", "65535", "65536", "70000", "1x", "99999x",
        "x", " 1", "1 ", "+-1", "٣", "123456",
    ];
    for s in samples.iter() {
        let ours = parse_port(s);
        let theirs = s.parse::<u16>();
        match (ours, theirs) {
            (Ok(a), Ok(b)) => assert_eq!(a, b, "input {:?}", s),
            (Err(e), Err(f)) => assert_eq!(e.message(), f.to_string(), "input {:?}", s),
            (a, b) => panic!("input {:?}: {:?} against {:?}", s, a, b),
        }
    }
}

#[test]
fn port_error_messages() {
    assert_eq!(PortParseError::Empty.message(), "cannot parse integer from empty string");
    assert_eq!(PortParseError::InvalidDigit.message(), "invalid digit found in string");
    assert_eq!(PortParseError::TooLarge.message(), "number too large to fit in target type");
}

#[test]
fn port_round_trip_through_decimal() {
    for p in [0u16, 1, 9, 10, 22, 99, 100, 443, 8080, 65534, 65535] {
        let text = decimal_string(p as u64);
        assert_eq!(parse_port(&text), Ok(p));
        let plus = format!("+{}", text);
        assert_eq!(parse_port(&plus), Ok(p));
    }
}
