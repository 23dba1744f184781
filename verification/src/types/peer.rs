//! A remote endpoint.

use vstd::prelude::*;

verus! {

/// Where a peer listens: the four octets of its IPv4 address, most
/// significant first, and its port.
#[derive(Debug, Clone, Copy, PartialEq, Eq)]
pub struct Peer {
    pub ip: [u8; 4],
    pub port: u16,
}

impl Peer {
    pub fn new(ip: [u8; 4], port: u16) -> (peer: Peer)
        ensures
            peer.ip == ip,
            peer.port == port,
    {
        Peer { ip, port }
    }
}

} // verus!
