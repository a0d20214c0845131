//! The content-type gate: recognising a smart-protocol response.

use vstd::prelude::*;
use vstd::string::StringExecFns;

use crate::error::Error;
use crate::service::Service;
use crate::text::str_eq;

verus! {

/// The exact header line that announces a smart-protocol response of the
/// given kind (`advertisement` or `result`) for the given service.
pub open spec fn expected_content_type_line(service: Service, kind: Seq<char>) -> Seq<char> {
    "Content-Type: application/x-"@ + service.token() + "-"@ + kind
}

/// Whether one of the header lines equals `line` exactly.
pub open spec fn contains_line(headers: Seq<String>, line: Seq<char>) -> bool {
    exists|i: int| 0 <= i < headers.len() && headers[i]@ == line
}

/// Builds the header line a smart server must send for `service` and `kind`.
pub fn expected_content_type(service: Service, kind: &str) -> (r: String)
    ensures
        r@ == expected_content_type_line(service, kind@),
{
    let mut s = "Content-Type: application/x-".to_owned();
    s.append(service.as_str());
    s.append("-");
    s.append(kind);
    s
}

/// Verifies that the header set contains the exact `Content-Type` line
/// expected for `service` and `kind` (case-sensitive, no parameter
/// parsing). A missing line produces a protocol-mismatch error naming the
/// expected header: the server is assumed to speak only the legacy dumb
/// protocol, which this transport does not implement.
pub fn check_content_type(service: Service, kind: &str, headers: &Vec<String>) -> (r: Result<
    (),
    Error,
>)
    ensures
        r is Ok <==> contains_line(headers@, expected_content_type_line(service, kind@)),
        r matches Err(e) ==> (e matches Error::ProtocolMismatch { expected } && expected@
            == expected_content_type_line(service, kind@)),
{
    let wanted = expected_content_type(service, kind);
    let mut i: usize = 0;
    while i < headers.len()
        invariant
            i <= headers.len(),
            wanted@ == expected_content_type_line(service, kind@),
            forall|k: int| 0 <= k < i ==> headers@[k]@ != wanted@,
        decreases headers.len() - i,
    {
        if str_eq(headers[i].as_str(), wanted.as_str()) {
            proof {
                assert(headers@[i as int]@ == wanted@);
            }
            return Ok(());
        }
        i = i + 1;
    }
    Err(Error::ProtocolMismatch { expected: wanted })
}

} // verus!
