//! Discovery of SOME/IP service instances over SOME/IP Service Discovery.
//!
//! The library builds the FindService datagram, decodes incoming datagrams,
//! and decides for each received datagram whether the discovery stream
//! yields a record, yields an error, or skips it.
mod codec;
pub mod client;
pub mod error;
pub mod query;
pub mod stream;
pub mod wire;

pub use client::{SomeIpClient, SomeIpClientOpt, SomeIpServer};
pub use error::{DecodeError, DiscoveryError};
pub use query::{find_service_message, EncodeError, FindServiceOpt, MulticastAddr};
pub use stream::{decode_datagram, decode_datagrams, next_item, StreamItem};
