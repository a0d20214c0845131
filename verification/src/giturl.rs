//! The data model of a parsed Git URL: scheme, user, host, port and path.
//!
//! The transport itself only composes URLs textually; this module carries
//! the structured form a URL parser would produce. Its textual components
//! are held as plain byte strings. Parsing is not supported: [`parse`]
//! rejects every input.

use vstd::prelude::*;

verus! {

/// The scheme of a Git URL.
#[derive(PartialEq, Eq, Debug, Hash, Ord, PartialOrd, Clone, Copy)]
pub enum Protocol {
    Ssh,
}

/// How a user directory in the path is to be expanded: the current user's,
/// or a named user's.
#[derive(PartialEq, Eq, Debug, Hash, Ord, PartialOrd, Clone)]
pub enum UserExpansion {
    Current,
    Name(Vec<u8>),
}

/// A structured Git URL: scheme, optional user and host, optional port,
/// path, and an optional user-directory expansion.
#[derive(PartialEq, Eq, Debug, Hash, Ord, PartialOrd, Clone)]
pub struct Url {
    pub protocol: Protocol,
    pub user: Option<Vec<u8>>,
    pub host: Option<Vec<u8>>,
    pub port: Option<u32>,
    pub path: Vec<u8>,
    pub expand_user: Option<UserExpansion>,
}

/// The failure of URL parsing.
#[derive(Debug)]
pub enum Error {
    TBD,
}

/// URL parsing is not supported: every input is rejected with
/// [`Error::TBD`].
pub fn parse(_url: &[u8]) -> (r: Result<Url, Error>)
    ensures
        r is Err,
{
    Err(Error::TBD)
}

} // verus!
