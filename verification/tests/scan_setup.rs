use renmap::port::PortParseError;
use renmap::scan::{plan_scan, IpAddress, ScanSetupError};

#[test]
fn plan_for_default_form() {
    let plan = plan_scan(Some(IpAddress::V4([192, 168, 1, 2])), "22").unwrap();
    assert!(matches!(plan.address, IpAddress::V4([192, 168, 1, 2])));
    assert_eq!(plan.ports, vec![22]);
    assert_eq!(plan.num_threads, 8);
    assert_eq!(plan.timeout_secs, 1);
    assert_eq!(plan.timeout_nanos, 5);
    assert_eq!(plan.max_attempts, 2);
}

#[test]
fn plan_v6_address() {
    let plan = plan_scan(Some(IpAddress::V6([0, 0, 0, 0, 0, 0, 0, 1])), "+443").unwrap();
    assert!(matches!(plan.address, IpAddress::V6([0, 0, 0, 0, 0, 0, 0, 1])));
    assert_eq!(plan.ports, vec![443]);
}

#[test]
fn plan_address_checked_first() {
    let e = plan_scan(None, "not a port").unwrap_err();
    assert!(matches!(e, ScanSetupError::InvalidAddress));
    assert_eq!(e.message(), "invalid IP address syntax");
}

#[test]
fn plan_bad_port() {
    let a = Some(IpAddress::V4([10, 0, 0, 1]));
    let e = plan_scan(a, "").unwrap_err();
    assert!(matches!(e, ScanSetupError::Port(PortParseError::Empty)));
    assert_eq!(e.message(), "cannot parse integer from empty string");
    let e = plan_scan(a, "22,23").unwrap_err();
    assert!(matches!(e, ScanSetupError::Port(PortParseError::InvalidDigit)));
    assert_eq!(e.message(), "invalid digit found in string");
    let e = plan_scan(a, "70000").unwrap_err();
    assert!(matches!(e, ScanSetupError::Port(PortParseError::TooLarge)));
    assert_eq!(e.message(), "number too large to fit in target type");
}
