//! Identities of the endpoints that talk over the service bus.
use vstd::prelude::*;

use crate::bytes::bytes_eq;

verus! {

/// The chain a syncer mediates.
#[derive(Clone, Copy, Debug, PartialEq, Eq, Structural, Hash)]
pub enum Blockchain {
    Bitcoin,
    Monero,
}

/// The network of a chain.
#[derive(Clone, Copy, Debug, PartialEq, Eq, Structural, Hash)]
pub enum Network {
    Mainnet,
    Testnet,
    Local,
}

/// A 32-byte swap identifier.
#[derive(Clone, Copy, Debug, Eq, Hash)]
pub struct SwapId(pub [u8; 32]);

impl PartialEq for SwapId {
    fn eq(&self, o: &SwapId) -> (r: bool) {
        bytes_eq(&self.0, &o.0)
    }
}

impl vstd::std_specs::cmp::PartialEqSpecImpl for SwapId {
    open spec fn obeys_eq_spec() -> bool {
        true
    }

    open spec fn eq_spec(&self, o: &SwapId) -> bool {
        *self == *o
    }
}

/// The address of a remote node: its public key, IP address and port.
#[derive(Clone, Copy, Debug, Eq, Hash)]
pub struct NodeAddr {
    pub node_id: [u8; 33],
    pub ip: [u8; 16],
    pub port: u16,
}

impl PartialEq for NodeAddr {
    fn eq(&self, o: &NodeAddr) -> (r: bool) {
        self.port == o.port && bytes_eq(&self.node_id, &o.node_id) && bytes_eq(&self.ip, &o.ip)
    }
}

impl vstd::std_specs::cmp::PartialEqSpecImpl for NodeAddr {
    open spec fn obeys_eq_spec() -> bool {
        true
    }

    open spec fn eq_spec(&self, o: &NodeAddr) -> bool {
        *self == *o
    }
}

/// One endpoint on the bus. Equality is structural.
#[derive(Clone, Copy, Debug, Eq, Hash)]
pub enum ServiceId {
    Loopback,
    Farcasterd,
    Wallet,
    Peer(NodeAddr),
    Swap(SwapId),
    Syncer(Blockchain, Network),
    Client(u64),
}

impl PartialEq for ServiceId {
    fn eq(&self, o: &ServiceId) -> (r: bool) {
        match (self, o) {
            (ServiceId::Loopback, ServiceId::Loopback) => true,
            (ServiceId::Farcasterd, ServiceId::Farcasterd) => true,
            (ServiceId::Wallet, ServiceId::Wallet) => true,
            (ServiceId::Peer(a), ServiceId::Peer(b)) => a.eq(b),
            (ServiceId::Swap(a), ServiceId::Swap(b)) => a.eq(b),
            (ServiceId::Syncer(c1, n1), ServiceId::Syncer(c2, n2)) => *c1 == *c2 && *n1 == *n2,
            (ServiceId::Client(a), ServiceId::Client(b)) => *a == *b,
            _ => false,
        }
    }
}

impl vstd::std_specs::cmp::PartialEqSpecImpl for ServiceId {
    open spec fn obeys_eq_spec() -> bool {
        true
    }

    open spec fn eq_spec(&self, o: &ServiceId) -> bool {
        *self == *o
    }
}

/// A socket address: an IP address (IPv4 mapped into IPv6) and a port.
#[derive(Clone, Copy, Debug, PartialEq, Eq, Hash)]
pub struct InetSocketAddr {
    pub ip: [u8; 16],
    pub port: u16,
}

/// A transaction output: the transaction id and the output's index in it.
#[derive(Clone, Copy, Debug, PartialEq, Eq, Hash)]
pub struct OutPoint {
    pub txid: [u8; 32],
    pub vout: u32,
}

} // verus!
