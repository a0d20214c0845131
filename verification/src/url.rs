//! Composition of request URLs from a base URL and a path suffix.

use vstd::prelude::*;
use vstd::string::StrSliceExecFns;
use vstd::string::StringExecFns;

verus! {

/// The URL obtained by appending `suffix` to `base`: a separating `/` is
/// inserted exactly when `base` does not already end in one.
pub open spec fn append_url_spec(base: Seq<char>, suffix: Seq<char>) -> Seq<char> {
    if base.len() > 0 && base.last() == '/' {
        base + suffix
    } else {
        base + "/"@ + suffix
    }
}

/// Appends `suffix` to the base URL `base`, inserting a `/` separator unless
/// `base` already ends in one: no double slashes, no missing slashes.
pub fn append_url(base: &str, suffix: &str) -> (r: String)
    ensures
        r@ == append_url_spec(base@, suffix@),
{
    let len = base.unicode_len();
    let mut out = base.to_owned();
    if len > 0 && base.get_char(len - 1) == '/' {
        out.append(suffix);
        out
    } else {
        out.append("/");
        out.append(suffix);
        out
    }
}

} // verus!
