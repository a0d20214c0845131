//! The transport state machine: one handshake, then one service request.
//!
//! A transport is bound to a base URL and a wire-protocol version. It moves
//! through two states: before the handshake no service is selected and no
//! packet-line reader exists; a successful [`Transport::handshake`] selects
//! the service and opens the reader. Only then may a caller build a service
//! request — [`Transport::request`] insists on a completed handshake as a
//! precondition, so a request can never reach the network first.

use vstd::prelude::*;
use vstd::pervasive::unreached;
use vstd::string::StringExecFns;

use crate::advert::parse_advertisement;
use crate::body::HeadersThenBody;
use crate::error::Error;
use crate::headers::{check_content_type, expected_content_type_line};
use crate::http::Http;
use crate::pkt::{
    data_line_spec, encode_data_line, encode_flush_line, flush_line_spec, PacketReader,
    MAX_DATA_LEN,
};
use crate::service::{Protocol, Service};
use crate::text::{str_eq, trim, trim_spec};
use crate::url::{append_url, append_url_spec};

verus! {

/// What a successful handshake returns to the caller: the negotiated
/// protocol version, the server's advertised capabilities and — under the
/// legacy wire version — its advertised reference lines.
pub struct SetServiceResponse {
    pub actual_protocol: Protocol,
    pub capabilities: Vec<String>,
    pub refs: Option<Vec<String>>,
}

/// The text of the announcement line a server must send first when asked
/// for `service`.
pub open spec fn announcement_line(service: Service) -> Seq<char> {
    "# service="@ + service.token()
}

fn expected_announcement(service: Service) -> (r: String)
    ensures
        r@ == announcement_line(service),
{
    let mut s = "# service=".to_owned();
    s.append(service.as_str());
    s
}

/// The service-announcement gate: verifies that the first advertised
/// line, once surrounding whitespace is trimmed, announces exactly the
/// requested service. A mismatch — a malformed advertisement, or a server
/// answering for the wrong service — is reported with both the expected
/// and the actual text.
pub fn check_announcement(text: &str, service: Service) -> (r: Result<(), Error>)
    ensures
        r is Ok <==> trim_spec(text@) == announcement_line(service),
        r matches Err(e) ==> (e matches Error::AnnouncementMismatch { expected, actual }
            && expected@ == announcement_line(service) && actual@ == trim_spec(text@)),
{
    let trimmed = trim(text);
    let expected = expected_announcement(service);
    if str_eq(trimmed.as_str(), expected.as_str()) {
        Ok(())
    } else {
        Err(Error::AnnouncementMismatch { expected, actual: trimmed })
    }
}

/// The user-agent header line every discovery request carries.
pub open spec fn user_agent_line() -> Seq<char> {
    "User-Agent: git/oxide-0.1.0"@
}

/// The header lines of a discovery request at `version`: the user agent
/// always, then the protocol-version negotiation header exactly when the
/// version is not the legacy one.
pub open spec fn discovery_headers_spec(version: Protocol) -> Seq<Seq<char>> {
    match version.spec_version_header() {
        None => seq![user_agent_line()],
        Some(h) => seq![user_agent_line(), h],
    }
}

/// How caller data handed to a [`RequestWriter`] enters the request
/// payload: as raw bytes, or framed as one packet line per write call.
#[derive(Clone, Copy, PartialEq, Eq, Structural, Debug)]
pub enum WriteMode {
    Binary,
    Framed,
}

/// A control message appended to the request payload when the writer is
/// released: a flush line, or one framed line of text.
#[derive(Clone, PartialEq, Eq, Debug)]
pub enum MessageKind {
    Flush,
    Text(Vec<u8>),
}

impl MessageKind {
    /// Whether the message fits a single packet line.
    pub open spec fn wf(self) -> bool {
        match self {
            MessageKind::Flush => true,
            MessageKind::Text(t) => t@.len() <= MAX_DATA_LEN,
        }
    }
}

/// The bytes one control message contributes to the request payload.
pub open spec fn message_bytes(m: MessageKind) -> Seq<u8> {
    match m {
        MessageKind::Flush => flush_line_spec(),
        MessageKind::Text(t) => data_line_spec(t@),
    }
}

/// The bytes a sequence of control messages contributes, in order.
pub open spec fn messages_bytes(msgs: Seq<MessageKind>) -> Seq<u8>
    decreases msgs.len(),
{
    if msgs.len() == 0 {
        Seq::empty()
    } else {
        messages_bytes(msgs.drop_last()) + message_bytes(msgs.last())
    }
}

/// Appends the encoded release-time control messages to the written
/// payload: the bytes a request posts are exactly the payload followed by
/// the messages, in order.
pub fn finish_payload(payload: Vec<u8>, on_drop: &Vec<MessageKind>) -> (r: Vec<u8>)
    requires
        forall|m: int| 0 <= m < on_drop@.len() ==> on_drop@[m].wf(),
    ensures
        r@ == payload@ + messages_bytes(on_drop@),
{
    let ghost base = payload@;
    let mut full = payload;
    let n = on_drop.len();
    let mut k: usize = 0;
    while k < n
        invariant
            k <= n,
            n == on_drop@.len(),
            forall|m: int| 0 <= m < n ==> on_drop@[m].wf(),
            full@ == base + messages_bytes(on_drop@.take(k as int)),
        decreases n - k,
    {
        match &on_drop[k] {
            MessageKind::Flush => {
                let mut line = encode_flush_line();
                full.append(&mut line);
            },
            MessageKind::Text(text) => {
                let mut line = encode_data_line(text.as_slice());
                full.append(&mut line);
            },
        }
        proof {
            assert(on_drop@.take(k + 1).drop_last() =~= on_drop@.take(k as int));
            assert(on_drop@.take(k + 1).last() == on_drop@[k as int]);
        }
        k = k + 1;
    }
    proof {
        assert(on_drop@.take(n as int) =~= on_drop@);
    }
    full
}

/// A service request under construction: the URL and headers the transport
/// composed, the payload written so far, and the control messages to append
/// when the request is sent. [`RequestWriter::send`] performs the POST and
/// hands back the reply wrapped for deferred validation.
pub struct RequestWriter {
    pub service: Service,
    pub url: String,
    pub headers: Vec<String>,
    pub write_mode: WriteMode,
    pub on_drop: Vec<MessageKind>,
    pub payload: Vec<u8>,
}

impl RequestWriter {
    /// Appends caller data to the request payload: raw under
    /// [`WriteMode::Binary`], as one packet line under
    /// [`WriteMode::Framed`].
    pub fn write(&mut self, data: &[u8])
        requires
            old(self).write_mode is Framed ==> data@.len() <= MAX_DATA_LEN,
        ensures
            final(self).service == old(self).service,
            final(self).url == old(self).url,
            final(self).headers == old(self).headers,
            final(self).write_mode == old(self).write_mode,
            final(self).on_drop == old(self).on_drop,
            final(self).payload@ == old(self).payload@ + (match old(self).write_mode {
                WriteMode::Binary => data@,
                WriteMode::Framed => data_line_spec(data@),
            }),
    {
        match self.write_mode {
            WriteMode::Binary => {
                self.payload.extend_from_slice(data);
            },
            WriteMode::Framed => {
                let mut line = encode_data_line(data);
                self.payload.append(&mut line);
            },
        }
    }

    /// Sends the request: posts the payload assembled by
    /// [`finish_payload`] — the written data followed by the release-time
    /// control messages — rebinds the transport's packet-line reader to
    /// the response body (resetting its framing state for the new stream),
    /// and returns the reply wrapped for deferred content-type validation.
    pub fn send<H: Http>(self, t: &mut Transport<H>) -> (r: Result<HeadersThenBody, Error>)
        requires
            old(t).wf(),
            old(t).handshake_done(),
            forall|m: int| 0 <= m < self.on_drop@.len() ==> self.on_drop@[m].wf(),
        ensures
            final(t).wf(),
            final(t).handshake_done(),
            final(t).selected_service() == old(t).selected_service(),
            final(t).spec_url() == old(t).spec_url(),
            final(t).spec_version() == old(t).spec_version(),
            r matches Ok(reply) ==> reply.service == self.service && reply.headers is Some
                && reply.pos == 0,
            r matches Err(e) ==> e is Io,
    {
        let RequestWriter { service, url, headers, write_mode: _, on_drop, payload } = self;
        let full = finish_payload(payload, &on_drop);
        let resp = match t.http.post(url.as_str(), &headers, &full) {
            Ok(resp) => resp,
            Err(e) => {
                return Err(e);
            },
        };
        match &mut t.line_provider {
            Some(p) => {
                let reply_bytes = match p.rebind_and_read(resp.body) {
                    Ok(b) => b,
                    Err(e) => {
                        return Err(e);
                    },
                };
                Ok(HeadersThenBody::new(service, resp.headers, reply_bytes))
            },
            None => {
                proof {
                    assert(false);
                }
                unreached()
            },
        }
    }
}

/// The transport: a base URL, a wire-protocol version, a pluggable HTTP
/// backend, and the handshake state shared between the two phases of the
/// conversation (the selected service and the packet-line reader).
pub struct Transport<H> {
    url: String,
    user_agent_header: String,
    version: Protocol,
    http: H,
    service: Option<Service>,
    line_provider: Option<PacketReader>,
}

impl<H> Transport<H> {
    /// The state invariant: the stored user-agent line is the fixed one,
    /// and the selected service and the packet-line reader are established
    /// together — both unset until a handshake succeeds, both set
    /// afterwards.
    pub closed spec fn wf(self) -> bool {
        &&& self.user_agent_header@ == user_agent_line()
        &&& (self.service is Some <==> self.line_provider is Some)
    }

    /// Whether a handshake has completed: only then may a request be built.
    pub closed spec fn handshake_done(self) -> bool {
        self.service is Some
    }

    /// Whether the packet-line reader is open: it is established by the
    /// first successful handshake and stays with the transport afterwards.
    pub closed spec fn reader_open(self) -> bool {
        self.line_provider is Some
    }

    /// The handshake flag and the selected service agree: the handshake
    /// has completed exactly when a service is selected.
    pub proof fn lemma_handshake_done_iff_service(self)
        ensures
            self.handshake_done() <==> self.selected_service() is Some,
    {
    }

    /// The service selected by the handshake, if any.
    pub closed spec fn selected_service(self) -> Option<Service> {
        self.service
    }

    /// The service selected by the handshake.
    pub closed spec fn current_service(self) -> Service {
        self.service.unwrap()
    }

    /// The base URL this transport is bound to.
    pub closed spec fn spec_url(self) -> Seq<char> {
        self.url@
    }

    /// The wire-protocol version this transport was configured with.
    pub closed spec fn spec_version(self) -> Protocol {
        self.version
    }

    /// Creates a transport bound to `url` and `version`, driving its
    /// requests through the backend `http`. No service is selected and no
    /// reader exists until the handshake succeeds.
    pub fn new(url: &str, version: Protocol, http: H) -> (r: Transport<H>)
        ensures
            r.wf(),
            !r.handshake_done(),
            !r.reader_open(),
            r.selected_service() is None,
            r.spec_url() == url@,
            r.spec_version() == version,
    {
        Transport {
            url: url.to_owned(),
            user_agent_header: "User-Agent: git/oxide-0.1.0".to_owned(),
            version,
            http,
            service: None,
            line_provider: None,
        }
    }

    /// Builds the header lines of this transport's discovery request: the
    /// user agent, and the version negotiation header for a non-legacy
    /// protocol.
    pub fn discovery_headers(&self) -> (r: Vec<String>)
        requires
            self.wf(),
        ensures
            r@.len() == discovery_headers_spec(self.spec_version()).len(),
            forall|k: int| 0 <= k < r@.len() ==> r@[k]@ == discovery_headers_spec(
                self.spec_version(),
            )[k],
    {
        let mut headers: Vec<String> = Vec::new();
        headers.push(self.user_agent_header.clone());
        match self.version.version_header() {
            Some(h) => headers.push(h),
            None => {},
        }
        headers
    }
}

impl<H: Http> Transport<H> {
    /// The discovery handshake. Composes `<base>/info/refs?service=<token>`,
    /// sends the user-agent header and — for a non-legacy protocol — the
    /// version negotiation header, validates the response's content type
    /// against kind `advertisement`, checks that the first packet-line
    /// section announces exactly the requested service, and parses the
    /// advertisement that follows. Only on success are the service and the
    /// packet-line reader established: before the first success a failed
    /// handshake leaves both unset, and the reader is always bound to the
    /// response body of this very call, never to a stale stream. The
    /// returned protocol always equals the configured version, and
    /// references are present exactly under the legacy version.
    pub fn handshake(&mut self, service: Service) -> (r: Result<SetServiceResponse, Error>)
        requires
            old(self).wf(),
        ensures
            final(self).wf(),
            final(self).spec_url() == old(self).spec_url(),
            final(self).spec_version() == old(self).spec_version(),
            r matches Ok(res) ==> final(self).handshake_done() && final(self).selected_service()
                == Some(service) && final(self).reader_open() && res.actual_protocol == old(
                self,
            ).spec_version() && (res.refs is Some <==> old(self).spec_version() == Protocol::V1),
            r is Err ==> final(self).selected_service() == old(self).selected_service(),
            r is Err && !old(self).handshake_done() ==> !final(self).reader_open(),
            r is Err && old(self).handshake_done() ==> final(self).handshake_done()
                && final(self).reader_open(),
            r matches Err(Error::ProtocolMismatch { expected }) ==> expected@
                == expected_content_type_line(service, "advertisement"@),
            r matches Err(Error::AnnouncementMismatch { expected, .. }) ==> expected@
                == announcement_line(service),
    {
        let mut suffix = "info/refs?service=".to_owned();
        suffix.append(service.as_str());
        let url = append_url(self.url.as_str(), suffix.as_str());
        let headers = self.discovery_headers();
        let resp = match self.http.get(url.as_str(), &headers) {
            Ok(resp) => resp,
            Err(e) => {
                return Err(e);
            },
        };
        match check_content_type(service, "advertisement", &resp.headers) {
            Ok(()) => {},
            Err(e) => {
                return Err(e);
            },
        }
        let mut provider = match self.line_provider.take() {
            Some(mut p) => match p.rebind(resp.body) {
                Ok(()) => p,
                Err(e) => {
                    if self.service.is_some() {
                        self.line_provider = Some(p);
                    }
                    return Err(e);
                },
            },
            None => match PacketReader::open(resp.body) {
                Ok(p) => p,
                Err(e) => {
                    return Err(e);
                },
            },
        };
        let announced = match provider.read_section() {
            Ok(text) => text,
            Err(e) => {
                if self.service.is_some() {
                    self.line_provider = Some(provider);
                }
                return Err(e);
            },
        };
        match check_announcement(announced.as_str(), service) {
            Ok(()) => {},
            Err(e) => {
                if self.service.is_some() {
                    self.line_provider = Some(provider);
                }
                return Err(e);
            },
        }
        let section = match provider.read_section() {
            Ok(text) => text,
            Err(e) => {
                if self.service.is_some() {
                    self.line_provider = Some(provider);
                }
                return Err(e);
            },
        };
        let (capabilities, refs) = parse_advertisement(section.as_str(), self.version);
        self.line_provider = Some(provider);
        self.service = Some(service);
        Ok(SetServiceResponse { actual_protocol: self.version, capabilities, refs })
    }

    /// Builds a service request. The handshake must have completed — this
    /// is a checked precondition, not a recoverable error, so a request
    /// against an unselected service can never reach the network. The
    /// writer carries `<base>/<token>` as its URL and the three protocol
    /// headers: the request content type, the accepted result content type,
    /// and an explicitly empty `Expect:` to suppress 100-continue stalls.
    pub fn request(&self, write_mode: WriteMode, on_drop: Vec<MessageKind>) -> (r: RequestWriter)
        requires
            self.handshake_done(),
        ensures
            r.service == self.current_service(),
            r.url@ == append_url_spec(self.spec_url(), self.current_service().token()),
            r.headers@.len() == 3,
            r.headers@[0]@ == "Content-Type: application/x-"@ + self.current_service().token()
                + "-request"@,
            r.headers@[1]@ == "Accept: application/x-"@ + self.current_service().token()
                + "-result"@,
            r.headers@[2]@ == "Expect:"@,
            r.write_mode == write_mode,
            r.on_drop == on_drop,
            r.payload@ == Seq::<u8>::empty(),
    {
        let service = match self.service {
            Some(s) => s,
            None => {
                proof {
                    assert(false);
                }
                unreached()
            },
        };
        let url = append_url(self.url.as_str(), service.as_str());
        let mut headers: Vec<String> = Vec::new();
        let mut content_type = "Content-Type: application/x-".to_owned();
        content_type.append(service.as_str());
        content_type.append("-request");
        headers.push(content_type);
        let mut accept = "Accept: application/x-".to_owned();
        accept.append(service.as_str());
        accept.append("-result");
        headers.push(accept);
        headers.push("Expect:".to_owned());
        RequestWriter {
            service,
            url,
            headers,
            write_mode,
            on_drop,
            payload: Vec::new(),
        }
    }
}

/// Creates a transport over the given backend; construction itself cannot
/// fail.
pub fn connect<H>(url: &str, version: Protocol, http: H) -> (r: Result<Transport<H>, Error>)
    ensures
        r matches Ok(t) && t.wf() && !t.handshake_done() && !t.reader_open()
            && t.selected_service() is None && t.spec_url() == url@ && t.spec_version()
            == version,
{
    Ok(Transport::new(url, version, http))
}

} // verus!
