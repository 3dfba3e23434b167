//! An HTTP client core for a host that exposes requests and responses as
//! structured resources rather than raw sockets.
//!
//! A caller describes a request declaratively through a builder (method, URL,
//! headers, query, body, connect timeout); every builder step that can fail
//! defers its error, and the terminal send operation surfaces the first such
//! error or yields the exact translation of the request into the host
//! transport's resource model. An unverified driver hands that translation to
//! the host, bridges the host's completion signal into a blocking wait, and
//! feeds the raw outcome back into the response type, which owns status,
//! decoded headers and the body bytes.

pub mod bridge;
pub mod encode;
pub mod error;
pub mod fields;
pub mod method;
pub mod request;
pub mod response;
pub mod url_parts;

pub use error::Error;
pub use method::Method;
pub use request::{RequestBuilder, Scheme, SendPlan};
pub use response::Response;
