//! Closed error vocabulary of the daemon core.
//!
//! Every fallible operation of the library reports one of these kinds, with
//! free-form context carried beside the kind so that callers can still match
//! on the variant.

use vstd::prelude::*;

verus! {

/// The closed set of error conditions the core surfaces.
#[derive(Clone, Copy, Debug, PartialEq, Eq, Structural)]
pub enum ErrorKind {
    /// A version string outside the supported enumeration.
    UnsupportedApiVersion,
    /// A request whose query lacks a usable `api-version` value.
    InvalidApiVersion,
    /// A route miss on the path dimension.
    NotFound,
    /// A route miss on the method dimension.
    MethodNotAllowed,
    /// A malformed manual device connection string.
    InvalidProvisioning,
    /// The registration service failed and no usable backup exists.
    ProvisioningFailed,
    /// The persistent cache directory cannot be created or written.
    CacheIo,
    /// The container runtime rejected initialization or the agent spec.
    RuntimeFatal,
    /// The edge agent exited unexpectedly; recovered by the watchdog.
    ModuleCrash,
    /// An unhandled handler error, answered with a server error status.
    ServiceError,
    /// Anything outside the closed set.
    Other,
}

impl ErrorKind {
    /// The HTTP status a kind answers a request with, for the kinds that
    /// cross the wire: a missing or unknown API version is the caller's
    /// fault, route misses carry their own statuses, and an unhandled
    /// handler error is a server error.  The fatal kinds abort boot
    /// instead and carry no status.
    pub fn status(&self) -> (r: Option<u16>)
        ensures
            match self {
                ErrorKind::InvalidApiVersion => r == Some(400u16),
                ErrorKind::NotFound => r == Some(404u16),
                ErrorKind::MethodNotAllowed => r == Some(405u16),
                ErrorKind::ServiceError => r == Some(500u16),
                _ => r is None,
            },
    {
        match self {
            ErrorKind::InvalidApiVersion => Some(400),
            ErrorKind::NotFound => Some(404),
            ErrorKind::MethodNotAllowed => Some(405),
            ErrorKind::ServiceError => Some(500),
            _ => None,
        }
    }
}

/// An error: a kind from the closed set plus out-of-band context.
#[derive(Clone, Debug)]
pub struct Error {
    pub kind: ErrorKind,
    pub context: String,
}

impl Error {
    /// Builds an error of the given kind with empty context.
    pub fn new(kind: ErrorKind) -> (r: Error)
        ensures
            r.kind == kind,
            r.context@.len() == 0,
    {
        Error { kind, context: String::new() }
    }

    /// Builds an error of the given kind with the given context.
    pub fn with_context(kind: ErrorKind, context: String) -> (r: Error)
        ensures
            r.kind == kind,
            r.context == context,
    {
        Error { kind, context }
    }

    /// The kind, for matching.
    pub fn kind(&self) -> (r: ErrorKind)
        ensures
            r == self.kind,
    {
        self.kind
    }

    /// The attached context, rendered for a log line.
    pub fn message(&self) -> (r: String)
        ensures
            r@ == self.context@,
    {
        self.context.clone()
    }
}

} // verus!
