//! The error taxonomy of the client.

use vstd::prelude::*;

verus! {

/// Everything that can go wrong between building a request and reading the
/// response.
///
/// Builder-side failures (`UrlParse`, `InvalidHeaderValue`) are deferred:
/// the builder records the first one and surfaces it at the terminal send
/// operation. Everything else arises while the request is driven through
/// the host transport or while the response is decoded, and surfaces
/// immediately.
#[derive(Debug)]
pub enum Error {
    /// The URL string handed to the builder could not be parsed.
    UrlParse,
    /// A header value contained bytes the host would reject.
    InvalidHeaderValue,
    /// Decoding a JSON response body failed. (Encoding a JSON or form
    /// request body cannot fail for the value and pair types the builder
    /// takes, so no builder step defers this error.)
    Serialization,
    /// The host rejected the method, scheme, authority, path or options
    /// while the request was being set up; the payload names the step.
    TransportSetup(String),
    /// The host reported a connection-level failure (DNS, refused, timeout,
    /// TLS); the payload carries the host's diagnostic code.
    Transport(String),
    /// The handle for the in-flight request had already been resolved: an
    /// internal invariant violation, unreachable under correct usage.
    AlreadyConsumed,
    /// A response header value was not valid UTF-8.
    InvalidHeaderEncoding,
    /// Reading the response body from the host stream failed with something
    /// other than an orderly close; the payload carries the host's
    /// diagnostic code.
    BodyRead(String),
}

} // verus!
