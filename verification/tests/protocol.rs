//! End-to-end exercises of the transport against a scripted HTTP backend.

use std::cell::RefCell;
use std::rc::Rc;

use git_transport::body::HeadersThenBody;
use git_transport::error::Error;
use git_transport::http::{GetResponse, Http, PostResponse};
use git_transport::service::{Protocol, Service};
use git_transport::transport::{
    check_announcement, connect, finish_payload, MessageKind, Transport, WriteMode,
};

/// What a scripted backend observed while serving the transport.
#[derive(Default)]
struct Log {
    get_calls: usize,
    post_calls: usize,
    get_url: String,
    get_headers: Vec<String>,
    post_url: String,
    post_headers: Vec<String>,
    post_payload: Vec<u8>,
}

/// A backend that replays canned responses and records what it was asked.
/// When `later_get_body` is set it is served from the second GET on.
struct Scripted {
    get_headers: Vec<String>,
    get_body: Vec<u8>,
    later_get_body: Option<Vec<u8>>,
    post_headers: Vec<String>,
    post_body: Vec<u8>,
    log: Rc<RefCell<Log>>,
}

impl Scripted {
    fn new(
        get_headers: Vec<String>,
        get_body: Vec<u8>,
        post_headers: Vec<String>,
        post_body: Vec<u8>,
    ) -> (Scripted, Rc<RefCell<Log>>) {
        let log = Rc::new(RefCell::new(Log::default()));
        let backend = Scripted {
            get_headers,
            get_body,
            later_get_body: None,
            post_headers,
            post_body,
            log: Rc::clone(&log),
        };
        (backend, log)
    }
}

impl Http for Scripted {
    fn get(&mut self, url: &str, headers: &Vec<String>) -> Result<GetResponse, Error> {
        let mut log = self.log.borrow_mut();
        log.get_calls += 1;
        log.get_url = url.to_string();
        log.get_headers = headers.clone();
        let body = match &self.later_get_body {
            Some(later) if log.get_calls > 1 => later.clone(),
            _ => self.get_body.clone(),
        };
        Ok(GetResponse { headers: self.get_headers.clone(), body })
    }

    fn post(
        &mut self,
        url: &str,
        headers: &Vec<String>,
        body: &Vec<u8>,
    ) -> Result<PostResponse, Error> {
        let mut log = self.log.borrow_mut();
        log.post_calls += 1;
        log.post_url = url.to_string();
        log.post_headers = headers.clone();
        log.post_payload = body.clone();
        Ok(PostResponse { headers: self.post_headers.clone(), body: self.post_body.clone() })
    }
}

fn pkt(text: &str) -> Vec<u8> {
    format!("{:04x}{}", text.len() + 4, text).into_bytes()
}

fn flush() -> Vec<u8> {
    b"0000".to_vec()
}

fn advert_get_body() -> Vec<u8> {
    let mut body = pkt("# service=git-upload-pack\n");
    body.extend_from_slice(&flush());
    body.extend_from_slice(&pkt(
        "74730d410fcb6603ace96f1dc55ea6196122532d refs/heads/main\0multi_ack side-band-64k\n",
    ));
    body.extend_from_slice(&flush());
    body
}

fn advert_headers() -> Vec<String> {
    vec!["Content-Type: application/x-git-upload-pack-advertisement".to_string()]
}

fn result_headers() -> Vec<String> {
    vec!["Content-Type: application/x-git-upload-pack-result".to_string()]
}

fn reply_body(text: &str) -> Vec<u8> {
    let mut b = pkt(text);
    b.extend_from_slice(&flush());
    b
}

#[test]
fn handshake_reports_protocol_capabilities_and_refs() {
    let (backend, _log) = Scripted::new(advert_headers(), advert_get_body(), Vec::new(), Vec::new());
    let mut t: Transport<Scripted> =
        connect("https://example.com/repo.git", Protocol::V1, backend).unwrap();
    let res = t.handshake(Service::UploadPack).expect("handshake must succeed");
    assert_eq!(res.actual_protocol, Protocol::V1);
    assert_eq!(
        res.capabilities,
        vec!["multi_ack".to_string(), "side-band-64k".to_string()]
    );
    assert_eq!(
        res.refs,
        Some(vec![
            "74730d410fcb6603ace96f1dc55ea6196122532d refs/heads/main".to_string()
        ])
    );
}

#[test]
fn handshake_composes_discovery_url_and_headers() {
    let (backend, log) = Scripted::new(advert_headers(), advert_get_body(), Vec::new(), Vec::new());
    let mut t = Transport::new("https://example.com/repo.git", Protocol::V1, backend);
    t.handshake(Service::UploadPack).expect("handshake must succeed");
    let log = log.borrow();
    assert_eq!(log.get_calls, 1);
    assert_eq!(
        log.get_url,
        "https://example.com/repo.git/info/refs?service=git-upload-pack"
    );
    assert_eq!(log.get_headers, vec!["User-Agent: git/oxide-0.1.0".to_string()]);
}

#[test]
fn handshake_with_trailing_slash_base_adds_no_double_slash() {
    let (backend, log) = Scripted::new(advert_headers(), advert_get_body(), Vec::new(), Vec::new());
    let mut t = Transport::new("https://example.com/repo.git/", Protocol::V1, backend);
    t.handshake(Service::UploadPack).expect("handshake must succeed");
    assert_eq!(
        log.borrow().get_url,
        "https://example.com/repo.git/info/refs?service=git-upload-pack"
    );
}

#[test]
fn handshake_v2_sends_version_header_and_defers_refs() {
    let mut body = pkt("# service=git-upload-pack\n");
    body.extend_from_slice(&flush());
    body.extend_from_slice(&pkt("agent=git/oxide\n"));
    body.extend_from_slice(&pkt("ls-refs\n"));
    body.extend_from_slice(&flush());
    let (backend, log) = Scripted::new(advert_headers(), body, Vec::new(), Vec::new());
    let mut t = Transport::new("https://example.com/repo.git", Protocol::V2, backend);
    let res = t.handshake(Service::UploadPack).expect("handshake must succeed");
    assert_eq!(res.actual_protocol, Protocol::V2);
    assert_eq!(
        res.capabilities,
        vec!["agent=git/oxide".to_string(), "ls-refs".to_string()]
    );
    assert!(res.refs.is_none());
    assert_eq!(
        log.borrow().get_headers,
        vec![
            "User-Agent: git/oxide-0.1.0".to_string(),
            "Git-Protocol: version=2".to_string(),
        ]
    );
}

#[test]
fn handshake_rejects_wrong_service_announcement() {
    let mut body = pkt("# service=git-receive-pack\n");
    body.extend_from_slice(&flush());
    body.extend_from_slice(&pkt("x\0caps\n"));
    body.extend_from_slice(&flush());
    let (backend, _log) = Scripted::new(advert_headers(), body, Vec::new(), Vec::new());
    let mut t = Transport::new("https://example.com/repo.git", Protocol::V1, backend);
    match t.handshake(Service::UploadPack) {
        Err(Error::AnnouncementMismatch { expected, actual }) => {
            assert_eq!(expected, "# service=git-upload-pack");
            assert_eq!(actual, "# service=git-receive-pack");
        }
        other => panic!("expected an announcement mismatch, got {:?}", other.map(|_| ())),
    }
}

#[test]
fn handshake_rejects_missing_smart_content_type() {
    let headers = vec!["Content-Type: text/html".to_string()];
    let (backend, log) = Scripted::new(headers, advert_get_body(), Vec::new(), Vec::new());
    let mut t = Transport::new("https://example.com/repo.git", Protocol::V1, backend);
    match t.handshake(Service::UploadPack) {
        Err(Error::ProtocolMismatch { expected }) => {
            assert_eq!(
                expected,
                "Content-Type: application/x-git-upload-pack-advertisement"
            );
        }
        other => panic!("expected a protocol mismatch, got {:?}", other.map(|_| ())),
    }
    assert_eq!(log.borrow().post_calls, 0);
}

#[test]
fn handshake_reports_malformed_framing_as_io_error() {
    let (backend, _log) =
        Scripted::new(advert_headers(), b"zzzzgarbage".to_vec(), Vec::new(), Vec::new());
    let mut t = Transport::new("https://example.com/repo.git", Protocol::V1, backend);
    match t.handshake(Service::UploadPack) {
        Err(Error::Io { .. }) => {}
        other => panic!("expected an I/O error, got {:?}", other.map(|_| ())),
    }
}

#[test]
fn announcement_gate_accepts_exact_service_after_trimming() {
    assert!(check_announcement("# service=git-upload-pack\n", Service::UploadPack).is_ok());
    assert!(check_announcement("  # service=git-upload-pack  \n", Service::UploadPack).is_ok());
    assert!(check_announcement("# service=git-receive-pack\n", Service::ReceivePack).is_ok());
}

#[test]
fn announcement_gate_quotes_expected_and_actual_on_mismatch() {
    match check_announcement("# service=git-receive-pack\n", Service::UploadPack) {
        Err(Error::AnnouncementMismatch { expected, actual }) => {
            assert_eq!(expected, "# service=git-upload-pack");
            assert_eq!(actual, "# service=git-receive-pack");
        }
        other => panic!("expected an announcement mismatch, got {:?}", other),
    }
}

#[test]
fn finish_payload_appends_control_messages_in_order() {
    let on_drop = vec![MessageKind::Text(b"done\n".to_vec()), MessageKind::Flush];
    let posted = finish_payload(b"abc".to_vec(), &on_drop);
    assert_eq!(posted, b"abc0009done\n0000".to_vec());
    let none: Vec<MessageKind> = Vec::new();
    assert_eq!(finish_payload(Vec::new(), &none), Vec::<u8>::new());
}

#[test]
fn handshake_rejects_oversized_length_prefix_without_panicking() {
    // A length prefix above the decoder's 65520-byte line buffer must be
    // rejected as an error by the framing check, never reach the decoder.
    for body in [b"ffff".to_vec(), b"fff1".to_vec(), b"FFFF".to_vec()] {
        let (backend, _log) = Scripted::new(advert_headers(), body, Vec::new(), Vec::new());
        let mut t = Transport::new("https://example.com/repo.git", Protocol::V1, backend);
        match t.handshake(Service::UploadPack) {
            Err(Error::Io { .. }) => {}
            other => panic!("expected an I/O error, got {:?}", other.map(|_| ())),
        }
    }
}

#[test]
fn handshake_rejects_truncated_packet_line() {
    // The prefix promises nine payload bytes; only four are present.
    let (backend, _log) =
        Scripted::new(advert_headers(), b"000dwant".to_vec(), Vec::new(), Vec::new());
    let mut t = Transport::new("https://example.com/repo.git", Protocol::V1, backend);
    match t.handshake(Service::UploadPack) {
        Err(Error::Io { .. }) => {}
        other => panic!("expected an I/O error, got {:?}", other.map(|_| ())),
    }
}

#[test]
fn failed_handshake_can_be_retried_against_a_fresh_body() {
    // The first response announces the wrong service; the retry must read
    // the new response body, not the stream of the failed attempt.
    let mut wrong = pkt("# service=git-receive-pack\n");
    wrong.extend_from_slice(&flush());
    wrong.extend_from_slice(&pkt("x\0caps\n"));
    wrong.extend_from_slice(&flush());
    let (mut backend, _log) =
        Scripted::new(advert_headers(), wrong, Vec::new(), Vec::new());
    backend.later_get_body = Some(advert_get_body());
    let mut t = Transport::new("https://example.com/repo.git", Protocol::V1, backend);
    assert!(t.handshake(Service::UploadPack).is_err());
    let res = t.handshake(Service::UploadPack).expect("retry must succeed");
    assert_eq!(
        res.capabilities,
        vec!["multi_ack".to_string(), "side-band-64k".to_string()]
    );
}

#[test]
fn request_after_handshake_reuses_reader_across_streams() {
    // The flush consumed while reading the advertisement must not make the
    // rebound reader treat the service reply as already ended.
    let (backend, _log) = Scripted::new(
        advert_headers(),
        advert_get_body(),
        result_headers(),
        reply_body("hello world\n"),
    );
    let mut t = Transport::new("https://example.com/repo.git", Protocol::V1, backend);
    t.handshake(Service::UploadPack).expect("handshake must succeed");
    let mut writer = t.request(WriteMode::Framed, vec![MessageKind::Flush]);
    writer.write(b"want 74730d410fcb6603ace96f1dc55ea6196122532d\n");
    let mut reply: HeadersThenBody = writer.send(&mut t).expect("send must succeed");
    let bytes = reply.read(1024).expect("reply must validate and be readable");
    assert_eq!(bytes, b"hello world\n".to_vec());
    let more = reply.read(1024).expect("a drained reply keeps reading empty");
    assert!(more.is_empty());
}

#[test]
fn request_composes_url_headers_and_framed_payload() {
    let (backend, log) = Scripted::new(
        advert_headers(),
        advert_get_body(),
        result_headers(),
        reply_body("ok\n"),
    );
    let mut t = Transport::new("https://example.com/repo.git", Protocol::V1, backend);
    t.handshake(Service::UploadPack).expect("handshake must succeed");
    let mut writer = t.request(WriteMode::Framed, vec![MessageKind::Flush]);
    assert_eq!(writer.url, "https://example.com/repo.git/git-upload-pack");
    assert_eq!(
        writer.headers,
        vec![
            "Content-Type: application/x-git-upload-pack-request".to_string(),
            "Accept: application/x-git-upload-pack-result".to_string(),
            "Expect:".to_string(),
        ]
    );
    writer.write(b"want abc\n");
    let reply = writer.send(&mut t).expect("send must succeed");
    assert!(reply.headers.is_some());
    let log = log.borrow();
    assert_eq!(log.post_calls, 1);
    assert_eq!(log.post_url, "https://example.com/repo.git/git-upload-pack");
    let mut expected_payload = pkt("want abc\n");
    expected_payload.extend_from_slice(&flush());
    assert_eq!(log.post_payload, expected_payload);
}

#[test]
fn binary_write_mode_appends_raw_bytes() {
    let (backend, _log) = Scripted::new(
        advert_headers(),
        advert_get_body(),
        result_headers(),
        reply_body("ok\n"),
    );
    let mut t = Transport::new("https://example.com/repo.git", Protocol::V1, backend);
    t.handshake(Service::UploadPack).expect("handshake must succeed");
    let mut writer = t.request(WriteMode::Binary, Vec::new());
    writer.write(b"raw");
    writer.write(b" bytes");
    assert_eq!(writer.payload, b"raw bytes".to_vec());
}

#[test]
fn framed_write_mode_frames_each_write() {
    let (backend, _log) = Scripted::new(
        advert_headers(),
        advert_get_body(),
        result_headers(),
        reply_body("ok\n"),
    );
    let mut t = Transport::new("https://example.com/repo.git", Protocol::V1, backend);
    t.handshake(Service::UploadPack).expect("handshake must succeed");
    let mut writer = t.request(WriteMode::Framed, Vec::new());
    writer.write(b"hi");
    assert_eq!(writer.payload, b"0006hi".to_vec());
}

#[test]
fn reply_with_wrong_result_content_type_fails_on_first_read_only() {
    let (backend, _log) = Scripted::new(
        advert_headers(),
        advert_get_body(),
        vec!["Content-Type: text/plain".to_string()],
        reply_body("data\n"),
    );
    let mut t = Transport::new("https://example.com/repo.git", Protocol::V1, backend);
    t.handshake(Service::UploadPack).expect("handshake must succeed");
    let writer = t.request(WriteMode::Binary, Vec::new());
    let mut reply = writer.send(&mut t).expect("send itself must succeed");
    match reply.read(16) {
        Err(Error::Io { message }) => {
            assert_eq!(message, "Content-Type: application/x-git-upload-pack-result");
        }
        other => panic!("expected the deferred validation to fail, got {:?}", other),
    }
    // Validation ran exactly once: the next read passes through to the body.
    let bytes = reply.read(16).expect("second read must pass through");
    assert_eq!(bytes, b"data\n".to_vec());
}
