//! The packet-line layer: a reader over the framed byte stream of a
//! response body, and verified encoding of framed request payloads.
//!
//! Decoding is done by the `git-packetline` crate. Its stream decoder is
//! held behind [`PacketReader`], whose read operations are trusted
//! wrappers: a response body is a buffered byte vector here, so what each
//! read yields is a function of those bytes alone, and the wrappers name
//! the results with uninterpreted spec functions. Before any bytes reach
//! the decoder they pass the verified [`check_framing`] guard, which
//! enforces [`well_framed`] — the precondition under which the decoder is
//! panic-free. Encoding — the length-prefixed framing of request payloads
//! — is implemented and verified in this module.

use vstd::prelude::*;

use crate::error::Error;

verus! {

/// The bytes of the stream a [`PacketReader`] has not yet consumed.
pub uninterp spec fn reader_rest(r: PacketReader) -> Seq<u8>;

/// The text a read of one packet-line section yields on the stream `s`: the
/// concatenated payloads of the packet lines up to the first flush line (or
/// the end of the stream).
pub uninterp spec fn pkt_section_text(s: Seq<u8>) -> Seq<char>;

/// The bytes of the stream `s` that remain once one packet-line section and
/// its flush line have been consumed.
pub uninterp spec fn pkt_section_rest(s: Seq<u8>) -> Seq<u8>;

/// The concatenated data-line payloads of the stream `s`, up to the first
/// flush line or the end of the stream.
pub uninterp spec fn pkt_payload(s: Seq<u8>) -> Seq<u8>;

/// Whether `b` is an ASCII hex digit as the packet-line decoder accepts it
/// (either case).
pub open spec fn is_hex_digit(b: u8) -> bool {
    (48 <= b <= 57) || (97 <= b <= 102) || (65 <= b <= 70)
}

/// The value of the hex digit `b`.
pub open spec fn hex_digit_val(b: u8) -> int {
    if 48 <= b <= 57 {
        b - 48
    } else if 97 <= b <= 102 {
        b - 87
    } else {
        b - 55
    }
}

/// Whether the four bytes at offset `i` of `s` are all hex digits.
pub open spec fn prefix_is_hex(s: Seq<u8>, i: int) -> bool {
    is_hex_digit(s[i]) && is_hex_digit(s[i + 1]) && is_hex_digit(s[i + 2]) && is_hex_digit(
        s[i + 3],
    )
}

/// The value of the four-digit hex length prefix at offset `i` of `s`.
pub open spec fn prefix_val(s: Seq<u8>, i: int) -> int {
    hex_digit_val(s[i]) * 4096 + hex_digit_val(s[i + 1]) * 256 + hex_digit_val(s[i + 2]) * 16
        + hex_digit_val(s[i + 3])
}

/// Whether the stream `s` is well-formed packet-line framing from offset
/// `i` on: a sequence of whole lines, each either one of the three special
/// four-byte markers (flush `0000`, delimiter `0001`, response-end `0002`)
/// or a data line whose hex length prefix is at least 5 and at most 65520
/// — the decoder's line buffer — with the full line present. Only such
/// streams are handed to the decoder: its blocking read path sizes an
/// internal buffer to 65520 bytes and splits it at the prefixed length
/// without an upper-bound check, so a larger prefix would make it panic.
pub open spec fn well_framed_from(s: Seq<u8>, i: int) -> bool
    decreases s.len() - i,
{
    if i == s.len() {
        true
    } else if s.len() - i < 4 {
        false
    } else if s[i] == 48 && s[i + 1] == 48 && s[i + 2] == 48 && (s[i + 3] == 48 || s[i + 3] == 49
        || s[i + 3] == 50) {
        well_framed_from(s, i + 4)
    } else if !prefix_is_hex(s, i) {
        false
    } else {
        let n = prefix_val(s, i);
        if n < 5 || n > 65520 {
            false
        } else if i + n > s.len() {
            false
        } else {
            well_framed_from(s, i + n)
        }
    }
}

/// Whether `s` is well-formed packet-line framing throughout.
pub open spec fn well_framed(s: Seq<u8>) -> bool {
    well_framed_from(s, 0)
}

fn is_hex_digit_exec(b: u8) -> (r: bool)
    ensures
        r == is_hex_digit(b),
{
    (48 <= b && b <= 57) || (97 <= b && b <= 102) || (65 <= b && b <= 70)
}

fn hex_digit_val_exec(b: u8) -> (r: usize)
    requires
        is_hex_digit(b),
    ensures
        r as int == hex_digit_val(b),
{
    if 48 <= b && b <= 57 {
        (b - 48) as usize
    } else if 97 <= b && b <= 102 {
        (b - 87) as usize
    } else {
        (b - 55) as usize
    }
}

/// Decides whether `body` is well-formed packet-line framing: whole lines
/// only, every length prefix within the decoder's bounds.
pub fn check_framing(body: &Vec<u8>) -> (r: bool)
    ensures
        r == well_framed(body@),
{
    let len = body.len();
    let mut i: usize = 0;
    while i < len
        invariant
            i <= len,
            len == body@.len(),
            well_framed(body@) == well_framed_from(body@, i as int),
        decreases len - i,
    {
        if len - i < 4 {
            proof {
                assert(!well_framed_from(body@, i as int));
            }
            return false;
        }
        let b0 = body[i];
        let b1 = body[i + 1];
        let b2 = body[i + 2];
        let b3 = body[i + 3];
        if b0 == 48 && b1 == 48 && b2 == 48 && (b3 == 48 || b3 == 49 || b3 == 50) {
            proof {
                assert(well_framed_from(body@, i as int) == well_framed_from(body@, i + 4));
            }
            i = i + 4;
        } else if is_hex_digit_exec(b0) && is_hex_digit_exec(b1) && is_hex_digit_exec(b2)
            && is_hex_digit_exec(b3) {
            let n = hex_digit_val_exec(b0) * 4096 + hex_digit_val_exec(b1) * 256
                + hex_digit_val_exec(b2) * 16 + hex_digit_val_exec(b3);
            if n < 5 || n > 65520 {
                proof {
                    assert(!well_framed_from(body@, i as int));
                }
                return false;
            }
            if n > len - i {
                proof {
                    assert(!well_framed_from(body@, i as int));
                }
                return false;
            }
            proof {
                assert(well_framed_from(body@, i as int) == well_framed_from(body@, i + n));
            }
            i = i + n;
        } else {
            proof {
                assert(!well_framed_from(body@, i as int));
            }
            return false;
        }
    }
    proof {
        assert(well_framed_from(body@, i as int));
    }
    true
}

/// A packet-line reader over a buffered response body. The transport
/// creates it against the discovery response and later rebinds it to the
/// service response, reusing the one instance so that framing state is
/// managed in a single place. A reader only ever holds a stream that
/// [`check_framing`] accepted — [`PacketReader::open`] and
/// [`PacketReader::rebind`] reject anything else — and the decoder
/// consumes whole lines, so the unread remainder stays well-formed.
pub struct PacketReader {
    inner: git_packetline::StreamingPeekableIter<std::io::Cursor<Vec<u8>>>,
}

#[verifier::external_type_specification]
#[verifier::external_body]
#[verifier::reject_recursive_types(T)]
pub struct ExStreamingPeekableIter<T>(git_packetline::StreamingPeekableIter<T>);

#[verifier::external_type_specification]
#[verifier::external_body]
#[verifier::reject_recursive_types(T)]
pub struct ExCursor<T>(std::io::Cursor<T>);

impl PacketReader {
    /// Relies on `git_packetline::StreamingPeekableIter::new`: a fresh
    /// decoder over the given bytes, configured to stop at flush lines.
    /// The decoder's blocking read path panics on a length prefix above
    /// 65520, so only a well-formed stream may be handed to it.
    #[verifier::external_body]
    fn new_unchecked(body: Vec<u8>) -> (r: PacketReader)
        requires
            well_framed(body@),
        ensures
            reader_rest(r) == body@,
    {
        PacketReader {
            inner: git_packetline::StreamingPeekableIter::new(
                std::io::Cursor::new(body),
                &[git_packetline::PacketLineRef::Flush],
            ),
        }
    }

    /// Relies on `StreamingPeekableIter::replace`: rebinds the decoder to a
    /// new stream and resets all framing state, so a flush line consumed on
    /// the previous stream cannot end the new one prematurely. As with
    /// construction, only a well-formed stream may be handed over.
    #[verifier::external_body]
    fn replace_unchecked(&mut self, body: Vec<u8>)
        requires
            well_framed(body@),
        ensures
            reader_rest(*final(self)) == body@,
    {
        self.inner.replace(std::io::Cursor::new(body));
    }

    /// Opens a reader over `body` after checking its framing: a body whose
    /// lines the decoder could not walk — a short or non-hex length
    /// prefix, a prefix outside the decoder's bounds, or a truncated line
    /// — is rejected here, before the decoder ever sees it.
    pub fn open(body: Vec<u8>) -> (r: Result<PacketReader, Error>)
        ensures
            r is Ok <==> well_framed(body@),
            r matches Ok(p) ==> reader_rest(p) == body@,
            r matches Err(e) ==> e is Io,
    {
        if check_framing(&body) {
            Ok(PacketReader::new_unchecked(body))
        } else {
            Err(Error::Io { message: "invalid packet-line framing in response body".to_owned() })
        }
    }

    /// Rebinds this reader to a new stream after checking its framing,
    /// resetting all framing state; a malformed body is rejected and the
    /// reader is left as it was.
    pub fn rebind(&mut self, body: Vec<u8>) -> (r: Result<(), Error>)
        ensures
            r is Ok <==> well_framed(body@),
            r is Ok ==> reader_rest(*final(self)) == body@,
            r is Err ==> *final(self) == *old(self),
            r matches Err(e) ==> e is Io,
    {
        if check_framing(&body) {
            self.replace_unchecked(body);
            Ok(())
        } else {
            Err(Error::Io { message: "invalid packet-line framing in response body".to_owned() })
        }
    }

    /// Relies on `StreamingPeekableIter::as_read` and
    /// `std::io::Read::read_to_string`: reads the payloads of the packet
    /// lines up to the next flush line (or the end of the stream) as text,
    /// and re-arms the decoder for the section that follows (dropping the
    /// read adapter resets its stopped state). A non-data line inside the
    /// section or invalid text yields an error. On a well-formed stream
    /// every length prefix fits the decoder's line buffer and reads consume
    /// whole lines, so the call cannot panic and the unread remainder stays
    /// well-formed.
    #[verifier::external_body]
    pub(crate) fn read_section(&mut self) -> (r: Result<String, Error>)
        requires
            well_framed(reader_rest(*old(self))),
        ensures
            well_framed(reader_rest(*final(self))),
            r matches Ok(text) ==> text@ == pkt_section_text(reader_rest(*old(self)))
                && reader_rest(*final(self)) == pkt_section_rest(reader_rest(*old(self))),
            r matches Err(e) ==> e is Io,
    {
        let mut text = String::new();
        match std::io::Read::read_to_string(&mut self.inner.as_read(), &mut text) {
            Ok(_) => Ok(text),
            Err(e) => Err(Error::Io { message: e.to_string() }),
        }
    }

    /// Relies on `StreamingPeekableIter::as_read` and
    /// `std::io::Read::read_to_end`: drains the concatenated data-line
    /// payloads up to the next flush line (or the end of the stream). A
    /// non-data line yields an error. As with
    /// [`PacketReader::read_section`], a well-formed stream cannot make the
    /// call panic, and the unread remainder stays well-formed.
    #[verifier::external_body]
    pub(crate) fn read_payload(&mut self) -> (r: Result<Vec<u8>, Error>)
        requires
            well_framed(reader_rest(*old(self))),
        ensures
            well_framed(reader_rest(*final(self))),
            r matches Ok(bytes) ==> bytes@ == pkt_payload(reader_rest(*old(self))),
            r matches Err(e) ==> e is Io,
    {
        let mut bytes = Vec::new();
        match std::io::Read::read_to_end(&mut self.inner.as_read(), &mut bytes) {
            Ok(_) => Ok(bytes),
            Err(e) => Err(Error::Io { message: e.to_string() }),
        }
    }

    /// Rebinds this reader to a new response stream and drains the reply:
    /// whatever the reader consumed on its previous stream — a flush line
    /// included — a successful read yields the data-line payload of the
    /// new body from its very start, with no premature end of stream.
    pub fn rebind_and_read(&mut self, body: Vec<u8>) -> (r: Result<Vec<u8>, Error>)
        ensures
            r matches Ok(bytes) ==> bytes@ == pkt_payload(body@),
            r matches Err(e) ==> e is Io,
    {
        match self.rebind(body) {
            Ok(()) => self.read_payload(),
            Err(e) => Err(e),
        }
    }
}

/// The largest payload a single packet line can carry.
pub const MAX_DATA_LEN: usize = 65516;

/// The ASCII code of the lowercase hex digit for `d`.
pub open spec fn hex_digit(d: int) -> u8 {
    if d < 10 {
        (48 + d) as u8
    } else {
        (87 + d) as u8
    }
}

/// The four lowercase hex digits encoding `n`, most significant first.
pub open spec fn hex4(n: int) -> Seq<u8> {
    seq![
        hex_digit(n / 4096 % 16),
        hex_digit(n / 256 % 16),
        hex_digit(n / 16 % 16),
        hex_digit(n % 16),
    ]
}

/// A data packet line: the length of the whole line (payload plus the four
/// digits themselves) in hex, then the payload.
pub open spec fn data_line_spec(data: Seq<u8>) -> Seq<u8> {
    hex4(data.len() + 4 as int) + data
}

/// A flush line, marking the logical end of a section.
pub open spec fn flush_line_spec() -> Seq<u8> {
    hex4(0)
}

fn hex_digit_exec(d: usize) -> (r: u8)
    requires
        d < 16,
    ensures
        r == hex_digit(d as int),
{
    if d < 10 {
        48 + (d as u8)
    } else {
        87 + (d as u8)
    }
}

/// Encodes one data packet line carrying `data`.
pub fn encode_data_line(data: &[u8]) -> (r: Vec<u8>)
    requires
        data@.len() <= MAX_DATA_LEN,
    ensures
        r@ == data_line_spec(data@),
{
    let n = data.len() + 4;
    let mut out: Vec<u8> = Vec::new();
    out.push(hex_digit_exec(n / 4096 % 16));
    out.push(hex_digit_exec(n / 256 % 16));
    out.push(hex_digit_exec(n / 16 % 16));
    out.push(hex_digit_exec(n % 16));
    let mut i: usize = 0;
    while i < data.len()
        invariant
            i <= data@.len(),
            out@ == hex4(data@.len() as int + 4) + data@.take(i as int),
        decreases data.len() - i,
    {
        out.push(data[i]);
        proof {
            assert(data@.take(i + 1) =~= data@.take(i as int).push(data@[i as int]));
        }
        i = i + 1;
    }
    proof {
        assert(data@.take(data@.len() as int) =~= data@);
    }
    out
}

/// Encodes a flush line.
pub fn encode_flush_line() -> (r: Vec<u8>)
    ensures
        r@ == flush_line_spec(),
{
    let mut out: Vec<u8> = Vec::new();
    out.push(48);
    out.push(48);
    out.push(48);
    out.push(48);
    proof {
        assert(out@ =~= hex4(0));
    }
    out
}

} // verus!
