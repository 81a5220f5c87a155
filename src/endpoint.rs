//! Endpoint addresses as plain values, and the rule that a relay never joins an
//! endpoint to itself.
use vstd::prelude::*;

verus! {

/// A socket address: an IP address with a port.
#[derive(Debug, Clone, Copy, PartialEq, Eq, Structural)]
pub enum Endpoint {
    /// An IPv4 address, its four octets big-endian in one integer.
    V4 { ip: u32, port: u16 },
    /// An IPv6 address, its sixteen octets big-endian in one integer.
    V6 { ip: u128, port: u16, flowinfo: u32, scope_id: u32 },
}

#[derive(Debug, Clone, Copy, PartialEq, Eq, Structural)]
pub enum ConfigError {
    /// Both ends of the relay name the same address.
    SameEndpoint,
}

/// Accepts a pair of endpoints only when they differ.
pub fn check_distinct(a: Endpoint, b: Endpoint) -> (r: Result<(), ConfigError>)
    ensures
        r is Ok <==> a != b,
        r is Err ==> r == Err::<(), ConfigError>(ConfigError::SameEndpoint),
{
    if a == b {
        Err(ConfigError::SameEndpoint)
    } else {
        Ok(())
    }
}

} // verus!
