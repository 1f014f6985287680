//! Endpoints and the client's address-resolution rule.
//!
//! An endpoint is a resolved network address in its textual host:port
//! form — all the logic here ever reads of one.  The client supports
//! exactly one fixed correspondent, so resolving its target must yield
//! exactly one candidate: zero or several candidates is a configuration
//! error, reported before any socket traffic, never a silent fallback to
//! the first candidate.

use vstd::prelude::*;

verus! {

/// A resolved network address (host and port), held in textual form.
#[derive(Debug)]
pub struct Endpoint {
    addr: String,
}

impl View for Endpoint {
    type V = Seq<char>;

    closed spec fn view(&self) -> Seq<char> {
        self.addr@
    }
}

impl Endpoint {
    /// An endpoint from its textual host:port form.
    pub fn new(addr: String) -> (e: Endpoint)
        ensures
            e@ == addr@,
    {
        Endpoint { addr }
    }

    /// The endpoint's textual form.
    pub fn as_str(&self) -> (s: &str)
        ensures
            s@ == self@,
    {
        self.addr.as_str()
    }
}

/// A configuration error: the client's target address specification did
/// not resolve to exactly one endpoint.
#[derive(Debug, PartialEq, Eq, Structural)]
pub enum ConfigError {
    /// Resolution yielded no candidate at all.
    InvalidAddress,
    /// Resolution yielded several candidates; the client deliberately
    /// supports a single fixed correspondent.
    MultipleAddresses,
}

impl ConfigError {
    /// The error's report, as the process prints it before exiting.
    pub fn message(&self) -> (s: String)
        ensures
            *self == ConfigError::InvalidAddress ==> s@ == "Invalid socket address input"@,
            *self == ConfigError::MultipleAddresses ==> s@
                == "This program only support single socket per client"@,
    {
        match self {
            ConfigError::InvalidAddress => String::from_str("Invalid socket address input"),
            ConfigError::MultipleAddresses => String::from_str(
                "This program only support single socket per client",
            ),
        }
    }
}

/// The client's single-peer rule: of the candidates a target address
/// specification resolved to, accept exactly one.  No candidate is an
/// invalid address; several are rejected rather than silently picking
/// the first.
pub fn select_single_endpoint(candidates: Vec<Endpoint>) -> (r: Result<Endpoint, ConfigError>)
    ensures
        candidates@.len() == 0 ==> r == Err::<Endpoint, ConfigError>(ConfigError::InvalidAddress),
        candidates@.len() > 1 ==> r == Err::<Endpoint, ConfigError>(
            ConfigError::MultipleAddresses,
        ),
        candidates@.len() == 1 ==> r == Ok::<Endpoint, ConfigError>(candidates@[0]),
{
    if candidates.len() == 0 {
        Err(ConfigError::InvalidAddress)
    } else if candidates.len() > 1 {
        Err(ConfigError::MultipleAddresses)
    } else {
        let mut only = candidates;
        match only.pop() {
            Some(e) => Ok(e),
            None => Err(ConfigError::InvalidAddress),
        }
    }
}

} // verus!
