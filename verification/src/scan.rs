//! The checks made on a scan request before the scan starts, and the
//! settings the scan runs with.
use vstd::prelude::*;
use vstd::string::*;
use crate::port::{PortParseError, parse_port, port_from_text, port_error_text, law_port_text_round_trip};
use crate::text::decimal_digits;

verus! {

/// An IP address, by its octets (IPv4) or its sixteen-bit groups (IPv6).
#[derive(Clone, Copy, Debug)]
pub enum IpAddress {
    V4([u8; 4]),
    V6([u16; 8]),
}

/// Why a scan could not be set up.
#[derive(Clone, Copy, Debug)]
pub enum ScanSetupError {
    /// The target is not an IP address.
    InvalidAddress,
    /// The port could not be read.
    Port(PortParseError),
}

/// The message that the error shows, as the standard library words it.
pub open spec fn setup_error_text(e: ScanSetupError) -> Seq<char> {
    match e {
        ScanSetupError::InvalidAddress => "invalid IP address syntax"@,
        ScanSetupError::Port(p) => port_error_text(p),
    }
}

impl ScanSetupError {
    /// The message that this error shows to the user.
    pub fn message(&self) -> (r: String)
        ensures
            r@ == setup_error_text(*self),
    {
        match self {
            ScanSetupError::InvalidAddress => String::from_str("invalid IP address syntax"),
            ScanSetupError::Port(p) => p.message(),
        }
    }
}

/// A TCP SYN scan as it is to be run.
#[derive(Debug)]
pub struct ScanPlan {
    /// The host to scan.
    pub address: IpAddress,
    /// The ports to probe on it.
    pub ports: Vec<u16>,
    /// How many threads probe at once.
    pub num_threads: usize,
    /// How long to wait for each answer: whole seconds.
    pub timeout_secs: u64,
    /// How long to wait for each answer: nanoseconds beyond the seconds.
    pub timeout_nanos: u32,
    /// How many probes a port gets at most.
    pub max_attempts: usize,
}

/// The outcome of setting up a scan of `port_text` on the address the target
/// text was read as (`None` where it is not an IP address): the address is
/// checked first, then the port; a scan probes that one port on that host with
/// 8 threads, a timeout of 1 s and 5 ns, and at most 2 probes.
pub open spec fn plan_outcome(address: Option<IpAddress>, port_text: Seq<char>) -> Result<
    (IpAddress, u16),
    ScanSetupError,
> {
    match address {
        None => Err(ScanSetupError::InvalidAddress),
        Some(a) => match port_from_text(port_text) {
            Ok(p) => Ok((a, p)),
            Err(e) => Err(ScanSetupError::Port(e)),
        },
    }
}

/// Sets up the scan of one port of one host. `address` is what the target
/// text was read as, `None` where it is not an IP address.
pub fn plan_scan(address: Option<IpAddress>, target_port: &str) -> (r: Result<ScanPlan, ScanSetupError>)
    ensures
        match (r, plan_outcome(address, target_port@)) {
            (Ok(plan), Ok((a, p))) => {
                &&& plan.address == a
                &&& plan.ports@ == seq![p]
                &&& plan.num_threads == 8
                &&& plan.timeout_secs == 1
                &&& plan.timeout_nanos == 5
                &&& plan.max_attempts == 2
            },
            (Err(e), Err(f)) => e == f,
            _ => false,
        },
        address is None ==> r matches Err(ScanSetupError::InvalidAddress),
        address matches Some(a) ==> match port_from_text(target_port@) {
            Ok(p) => r matches Ok(plan) && plan.address == a && plan.ports@ == seq![p],
            Err(e) => r matches Err(ScanSetupError::Port(f)) && f == e,
        },
{
    match address {
        None => Err(ScanSetupError::InvalidAddress),
        Some(a) => match parse_port(target_port) {
            Ok(p) => {
                let mut ports: Vec<u16> = Vec::new();
                ports.push(p);
                assert(ports@ =~= seq![p]);
                Ok(
                    ScanPlan {
                        address: a,
                        ports,
                        num_threads: 8,
                        timeout_secs: 1,
                        timeout_nanos: 5,
                        max_attempts: 2,
                    },
                )
            },
            Err(e) => Err(ScanSetupError::Port(e)),
        },
    }
}

/// A scan is set up exactly when the target is an IP address and the port
/// reads; it then probes the port that was read and no other, and a refused
/// port is reported with the reason the reading gave. In particular every
/// port from 0 to 65535, typed in decimal, is accepted and probed as typed.
pub proof fn law_plan_probes_the_typed_port(a: IpAddress, t: Seq<char>, p: u16)
    ensures
        plan_outcome(None, t) matches Err(ScanSetupError::InvalidAddress),
        port_from_text(t) matches Ok(q) ==> plan_outcome(Some(a), t) == Ok::<(IpAddress, u16), ScanSetupError>((a, q)),
        port_from_text(t) matches Err(e) ==> plan_outcome(Some(a), t) matches Err(ScanSetupError::Port(f)) && f == e,
        plan_outcome(Some(a), decimal_digits(p as nat)) == Ok::<(IpAddress, u16), ScanSetupError>((a, p)),
{
    law_port_text_round_trip(p);
}

} // verus!
