//! A client-side transport for the Git "smart" protocol carried over HTTP.
//!
//! The transport performs the two-phase exchange a Git client drives against
//! an HTTP-speaking server: a discovery handshake (a GET request advertising
//! the server's capabilities and references) followed by a service request
//! (a POST request carrying the negotiated payload). The HTTP mechanism
//! itself stays behind a capability trait; the packet-line framing engine is
//! the `git-packetline` crate, reached through a small set of trusted
//! wrappers.

pub mod advert;
pub mod body;
pub mod error;
pub mod giturl;
pub mod headers;
pub mod http;
pub mod pkt;
pub mod service;
pub mod text;
pub mod transport;
pub mod url;
