//! The HTTP method of a request.

use vstd::prelude::*;

verus! {

/// The fixed set of standard HTTP verbs, plus an escape hatch for anything
/// else. The `Other` payload is passed to the host verbatim.
#[derive(Debug)]
pub enum Method {
    Get,
    Head,
    Post,
    Put,
    Delete,
    Connect,
    Options,
    Trace,
    Patch,
    Other(String),
}

} // verus!
