//! The compute side of one backend's client: the replies a backend gives
//! and how their HTTP status is classified. The transport itself — the
//! requests and the JSON decoding — lives outside the library and hands
//! these functions plain values.

use vstd::prelude::*;

verus! {

/// A backend's reply to a status probe.
#[derive(Clone, Copy, Debug, PartialEq, Eq)]
pub struct StatusResponse {
    /// Whether the backend is currently busy.
    pub is_busy: bool,
}

impl StatusResponse {
    /// The busy flag a probe extracts from a status reply.
    pub fn busy(&self) -> (r: bool)
        ensures
            r == self.is_busy,
    {
        self.is_busy
    }
}

/// One file format a backend can convert, as the backend reports it.
#[derive(Debug)]
pub struct SupportedFormat {
    /// Name of the file format.
    pub name: String,
    /// Mime type of the format.
    pub mime: String,
}

/// The conversion engine version a backend reports.
#[derive(Debug)]
pub struct VersionResponse {
    /// Major version of the engine.
    pub major: u32,
    /// Minor version of the engine.
    pub minor: u32,
    /// The engine's build identifier.
    pub build_id: String,
}

/// Connection timeout a client falls back to when none is configured.
pub const DEFAULT_CONNECT_TIMEOUT_MS: u64 = 700;

/// Configuration for one backend's client; timeouts are in milliseconds,
/// `None` meaning no bound.
#[derive(Clone, Copy, Debug, PartialEq, Eq)]
pub struct ClientOptions {
    /// Give up on establishing a connection after this long; used by the
    /// status probe so a dead backend answers quickly.
    pub connect_timeout_ms: Option<u64>,
    /// Give up on reading a response after this long.
    pub read_timeout_ms: Option<u64>,
}

impl Default for ClientOptions {
    /// The defaults: allow a connection attempt to fail after 700
    /// milliseconds, and place no bound on reading a reply.
    fn default() -> (r: ClientOptions)
        ensures
            r.connect_timeout_ms == Some(DEFAULT_CONNECT_TIMEOUT_MS),
            r.read_timeout_ms is None,
    {
        ClientOptions { connect_timeout_ms: Some(DEFAULT_CONNECT_TIMEOUT_MS), read_timeout_ms: None }
    }
}

/// The HTTP statuses the client reads as a failed request: the client
/// error and server error classes.
pub open spec fn error_status(status: u16) -> bool {
    400 <= status < 600
}

/// Decides whether a reply's status means the request failed and its body
/// carries the backend's error description rather than the answer.
pub fn is_error_status(status: u16) -> (r: bool)
    ensures
        r == error_status(status),
{
    400 <= status && status < 600
}

} // verus!
