//! Identities and addresses, held as the plain values the protocol logic
//! reads: a public identity is its bits, a transport address is an IPv4
//! address and a port.

use vstd::prelude::*;

verus! {

/// The public half of a node's long-lived key pair: the globally unique,
/// authenticated identifier of a peer.
#[derive(Clone, Copy, PartialEq, Eq, Structural, Debug, Hash)]
pub struct PublicId {
    pub bits: u64,
}

impl PublicId {
    pub fn new(bits: u64) -> (r: PublicId)
        ensures
            r.bits == bits,
    {
        PublicId { bits }
    }
}

/// The role a peer takes on its session: a full participant or a
/// lightweight client. Recorded and reported, nothing more, inside the core.
#[derive(Clone, Copy, PartialEq, Eq, Structural, Debug)]
pub enum CrustUser {
    Node,
    Client,
}

/// A transport address at which a remote identity may be reachable.
#[derive(Clone, Copy, PartialEq, Eq, Structural, Debug, Hash)]
pub struct PaAddr {
    pub ip: u32,
    pub port: u16,
}

impl PaAddr {
    pub fn new(ip: u32, port: u16) -> (r: PaAddr)
        ensures
            r.ip == ip,
            r.port == port,
    {
        PaAddr { ip, port }
    }
}

} // verus!
