//! The errors of a discovery.
use crate::query::EncodeError;
use vstd::prelude::*;

verus! {

/// Which header of a received datagram could not be decoded.
#[derive(Clone, Copy, Debug, PartialEq, Eq, Structural)]
pub enum DecodeError {
    /// The base SOME/IP header is truncated or invalid.
    BaseHeader,
    /// The message is SD but its SD header is truncated or invalid.
    SdHeader,
}

/// An error of a discovery. Encoding and transport errors end the discovery
/// before it starts; receive and decode errors are items of the stream.
#[derive(Clone, Copy, Debug, PartialEq, Eq, Structural)]
pub enum DiscoveryError {
    /// The query could not be encoded.
    Encode(EncodeError),
    /// A socket could not be bound, joined, connected, configured or sent on.
    Transport,
    /// One receive from the socket failed.
    Receive,
    /// One received datagram could not be decoded.
    Decode(DecodeError),
    /// The operation is not supported by this client.
    Unsupported,
}

} // verus!
