//! The discovery client and the server and subscription stubs.
use crate::error::DiscoveryError;
use crate::query::MulticastAddr;
use vstd::prelude::*;

verus! {

/// A SOME/IP-SD client. It holds no state: each discovery owns its sockets.
#[derive(Clone, Copy, Debug, PartialEq, Eq, Structural)]
pub struct SomeIpClient {}

impl SomeIpClient {
    /// A new client.
    pub fn new() -> (r: Self)
        ensures
            r == (SomeIpClient {}),
    {
        SomeIpClient {}
    }

    /// Eventgroup subscription is not supported: it fails at once.
    pub fn subscribe() -> (r: Result<(), DiscoveryError>)
        ensures
            r == Err::<(), DiscoveryError>(DiscoveryError::Unsupported),
    {
        Err(DiscoveryError::Unsupported)
    }
}

/// Settings of a client bound to one service.
#[derive(Clone, Copy, Debug)]
pub struct SomeIpClientOpt {
    pub sd_multicast_addr: MulticastAddr,
    pub service_id: u16,
    pub instance_id: u16,
    pub major_version: u8,
    pub ttl: u32,
    pub minor_version: u32,
}

/// A SOME/IP-SD server that would offer one service instance.
#[derive(Clone, Copy, Debug)]
pub struct SomeIpServer {
    pub sd_multicast_addr: MulticastAddr,
    pub service_id: u16,
    pub instance_id: u16,
    pub ttl: u32,
    pub minor_version: u32,
}

impl SomeIpServer {
    /// Offering services is not supported: it fails at once.
    pub fn serve(&self) -> (r: Result<(), DiscoveryError>)
        ensures
            r == Err::<(), DiscoveryError>(DiscoveryError::Unsupported),
    {
        Err(DiscoveryError::Unsupported)
    }
}

} // verus!
