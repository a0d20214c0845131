//! The Git operation being negotiated and the wire-protocol version.

use vstd::prelude::*;

verus! {

/// The Git operation a transport negotiates: fetch/clone is served by
/// `upload-pack`, push by `receive-pack`. The token returned by
/// [`Service::as_str`] appears in the request URL, in the expected
/// `Content-Type` headers and in the server's service announcement.
#[derive(Clone, Copy, PartialEq, Eq, Structural, Debug)]
pub enum Service {
    UploadPack,
    ReceivePack,
}

impl Service {
    /// The protocol-defined token of this service.
    pub open spec fn token(self) -> Seq<char> {
        match self {
            Service::UploadPack => "git-upload-pack"@,
            Service::ReceivePack => "git-receive-pack"@,
        }
    }

    /// Returns the protocol-defined string token of this service.
    pub fn as_str(self) -> (r: &'static str)
        ensures
            r@ == self.token(),
    {
        match self {
            Service::UploadPack => "git-upload-pack",
            Service::ReceivePack => "git-receive-pack",
        }
    }
}

/// The negotiated wire-protocol version. `V1` is the legacy default; `V2`
/// adds a negotiation header to the discovery request.
#[derive(Clone, Copy, PartialEq, Eq, Structural, Debug)]
pub enum Protocol {
    V1,
    V2,
}

impl Protocol {
    /// The numeric version sent in the `Git-Protocol` header.
    pub open spec fn spec_version_number(self) -> u64 {
        match self {
            Protocol::V1 => 1,
            Protocol::V2 => 2,
        }
    }

    /// Returns the numeric wire version of this protocol.
    pub fn version_number(self) -> (n: u64)
        ensures
            n == self.spec_version_number(),
    {
        match self {
            Protocol::V1 => 1,
            Protocol::V2 => 2,
        }
    }

    /// The extra header announcing a non-legacy protocol version, or `None`
    /// for the legacy version, which is never announced.
    pub open spec fn spec_version_header(self) -> Option<Seq<char>> {
        match self {
            Protocol::V1 => None,
            Protocol::V2 => Some("Git-Protocol: version=2"@),
        }
    }

    /// Returns the protocol-version negotiation header to send during the
    /// handshake, or `None` for the legacy version.
    pub fn version_header(self) -> (r: Option<String>)
        ensures
            r is Some <==> self.spec_version_header() is Some,
            r matches Some(h) ==> self.spec_version_header() matches Some(s) && h@ == s,
    {
        match self {
            Protocol::V1 => None,
            Protocol::V2 => Some("Git-Protocol: version=2".to_owned()),
        }
    }
}

} // verus!
