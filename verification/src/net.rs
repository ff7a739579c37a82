//! Network addresses as plain values.

use vstd::prelude::*;

verus! {

/// An IP address. The bits of an IPv4 address stand in the low 32.
#[derive(Clone, Copy, Debug, PartialEq, Eq, Structural)]
pub struct PeerIp {
    pub bits: u128,
    pub v6: bool,
}

/// Where a peer can be reached.
#[derive(Clone, Copy, Debug, PartialEq, Eq, Structural)]
pub struct PeerAddr {
    pub ip: PeerIp,
    pub port: u16,
}

} // verus!
