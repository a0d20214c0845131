//! The deferred-validation body wrapper: a reply stream paired with the
//! header set it arrived with, validated on first read.
//!
//! In the service-request path the header set and the body are exposed
//! together, but the content-type must be checked exactly once and must not
//! run at all if the caller never reads the reply (for instance on early
//! abandonment). The wrapper therefore keeps the header set until the first
//! read-like call, validates then, and discards the headers whatever the
//! outcome, so later reads pass straight through to the body.

use vstd::prelude::*;

use crate::error::{io_wrapped, Error};
use crate::headers::{check_content_type, contains_line, expected_content_type_line};
use crate::service::Service;

verus! {

/// A reply body paired with the optional header set it arrived with.
/// `headers` is `Some` until the first read-like call consumes it; `body`
/// holds the reply bytes and `pos` the read position within them.
pub struct HeadersThenBody {
    pub service: Service,
    pub headers: Option<Vec<String>>,
    pub body: Vec<u8>,
    pub pos: usize,
}

impl HeadersThenBody {
    /// Whether the content-type check is still owed: it is until the first
    /// read-like call.
    pub open spec fn validation_pending(self) -> bool {
        self.headers is Some
    }

    /// Whether the pending validation (if any) will accept the header set:
    /// once the headers are consumed this holds trivially.
    pub open spec fn validation_passes(self) -> bool {
        match self.headers {
            None => true,
            Some(h) => contains_line(h@, expected_content_type_line(self.service, "result"@)),
        }
    }

    /// The read position, clamped to the body's length.
    pub open spec fn start_of(self) -> int {
        if self.pos <= self.body@.len() {
            self.pos as int
        } else {
            self.body@.len() as int
        }
    }

    /// Validation runs at most once: every read-like call leaves the
    /// header set consumed, and a wrapper whose header set is consumed can
    /// no longer fail validation, so later reads pass straight through to
    /// the body.
    pub proof fn lemma_validation_at_most_once(self)
        requires
            !self.validation_pending(),
        ensures
            self.validation_passes(),
    {
    }

    /// Wraps a reply body together with its header set; nothing is
    /// validated yet.
    pub fn new(service: Service, headers: Vec<String>, body: Vec<u8>) -> (r: HeadersThenBody)
        ensures
            r.service == service,
            r.headers == Some(headers),
            r.body == body,
            r.pos == 0,
    {
        HeadersThenBody { service, headers: Some(headers), body, pos: 0 }
    }

    /// Runs the content-type check against kind `result` if the header set
    /// is still present, consuming it whatever the outcome; a validation
    /// failure is reported as a generic I/O-level error naming the expected
    /// header line. Once the headers are consumed this does nothing.
    pub fn handle_headers(&mut self) -> (r: Result<(), Error>)
        ensures
            final(self).headers is None,
            final(self).service == old(self).service,
            final(self).body == old(self).body,
            final(self).pos == old(self).pos,
            r is Ok <==> old(self).validation_passes(),
            r matches Err(e) ==> (e matches Error::Io { message } && message@
                == expected_content_type_line(old(self).service, "result"@)),
    {
        let taken = self.headers.take();
        match taken {
            Some(h) => {
                match check_content_type(self.service, "result", &h) {
                    Ok(()) => Ok(()),
                    Err(e) => Err(io_wrapped(e)),
                }
            },
            None => Ok(()),
        }
    }

    /// Reads up to `max` bytes of the reply, after running the deferred
    /// validation if it is still owed. A validation failure consumes the
    /// header set, reads nothing and reports the I/O-level error; any later
    /// read passes through to the body.
    pub fn read(&mut self, max: usize) -> (r: Result<Vec<u8>, Error>)
        ensures
            final(self).headers is None,
            final(self).service == old(self).service,
            final(self).body == old(self).body,
            !old(self).validation_passes() ==> (final(self).pos == old(self).pos && (
            r matches Err(e) && e matches Error::Io { message } && message@
                == expected_content_type_line(old(self).service, "result"@))),
            old(self).validation_passes() ==> (r matches Ok(bytes) && ({
                let start = old(self).start_of();
                let n = if max <= old(self).body@.len() - start {
                    max as int
                } else {
                    old(self).body@.len() - start
                };
                bytes@ == old(self).body@.subrange(start, start + n) && final(self).pos == start
                    + n
            })),
    {
        match self.handle_headers() {
            Err(e) => Err(e),
            Ok(()) => {
                let len = self.body.len();
                let start = if self.pos <= len {
                    self.pos
                } else {
                    len
                };
                let remaining = len - start;
                let n = if max <= remaining {
                    max
                } else {
                    remaining
                };
                let end = start + n;
                let mut out: Vec<u8> = Vec::new();
                let mut i: usize = start;
                while i < end
                    invariant
                        start <= i <= end,
                        end <= self.body@.len(),
                        out@ == self.body@.subrange(start as int, i as int),
                    decreases end - i,
                {
                    out.push(self.body[i]);
                    proof {
                        assert(self.body@.subrange(start as int, i + 1) =~= self.body@.subrange(
                            start as int,
                            i as int,
                        ).push(self.body@[i as int]));
                    }
                    i = i + 1;
                }
                self.pos = end;
                Ok(out)
            },
        }
    }

    /// Returns the unread remainder of the reply without consuming it,
    /// after running the deferred validation if it is still owed.
    pub fn fill_buf(&mut self) -> (r: Result<Vec<u8>, Error>)
        ensures
            final(self).headers is None,
            final(self).service == old(self).service,
            final(self).body == old(self).body,
            final(self).pos == old(self).pos,
            !old(self).validation_passes() ==> (r matches Err(e) && e matches Error::Io {
                message,
            } && message@ == expected_content_type_line(old(self).service, "result"@)),
            old(self).validation_passes() ==> (r matches Ok(bytes) && bytes@ == old(
                self,
            ).body@.subrange(old(self).start_of(), old(self).body@.len() as int)),
    {
        match self.handle_headers() {
            Err(e) => Err(e),
            Ok(()) => {
                let len = self.body.len();
                let start = if self.pos <= len {
                    self.pos
                } else {
                    len
                };
                let mut out: Vec<u8> = Vec::new();
                let mut i: usize = start;
                while i < len
                    invariant
                        start <= i <= len,
                        len == self.body@.len(),
                        out@ == self.body@.subrange(start as int, i as int),
                    decreases len - i,
                {
                    out.push(self.body[i]);
                    proof {
                        assert(self.body@.subrange(start as int, i + 1) =~= self.body@.subrange(
                            start as int,
                            i as int,
                        ).push(self.body@[i as int]));
                    }
                    i = i + 1;
                }
                Ok(out)
            },
        }
    }

    /// Advances the read position by up to `amt` bytes. Consuming delegates
    /// directly to the body: it neither runs nor skips the deferred
    /// validation.
    pub fn consume(&mut self, amt: usize)
        ensures
            final(self).headers == old(self).headers,
            final(self).service == old(self).service,
            final(self).body == old(self).body,
            final(self).pos == ({
                let start = old(self).start_of();
                let n = if amt <= old(self).body@.len() - start {
                    amt as int
                } else {
                    old(self).body@.len() - start
                };
                start + n
            }),
    {
        let len = self.body.len();
        let start = if self.pos <= len {
            self.pos
        } else {
            len
        };
        let remaining = len - start;
        let n = if amt <= remaining {
            amt
        } else {
            remaining
        };
        self.pos = start + n;
    }
}

} // verus!
