//! The request builder and its translation into the host transport's
//! resource model.
//!
//! The builder is a tagged variant: either the request under construction,
//! or the first error any builder step ran into. Every mutating method
//! passes a failure through unchanged, so the error surfaced by the
//! terminal [`RequestBuilder::send`] is always the first one — later calls,
//! failing or not, cannot overwrite it.

use crate::encode;
use crate::error::Error;
use crate::fields;
use crate::fields::{
    assoc_last, entries_ok, entries_view, fields_view, keys_distinct, lookup, value_ok,
};
use crate::method::Method;
use crate::url_parts;
use crate::url_parts::{merged_query, path_with_query_spec, query_view, url_parse_of, UrlParts};
use core::time::Duration;
use vstd::prelude::*;

verus! {

/// A fully described request: what the builder accumulates and `send`
/// translates for the host.
pub struct Request {
    pub method: Method,
    pub url: UrlParts,
    pub headers: Vec<(String, String)>,
    pub body: Option<Vec<u8>>,
    pub connect_timeout: Option<Duration>,
}

/// The URL scheme as the host transport's enumeration sees it: the two
/// schemes it knows, and anything else passed through verbatim, case
/// preserved.
pub enum Scheme {
    Http,
    Https,
    Other(String),
}

/// Whether `scheme` is the host-side rendering of the scheme string `s`.
pub open spec fn scheme_matches(scheme: Scheme, s: Seq<char>) -> bool {
    if s == "http"@ {
        scheme is Http
    } else if s == "https"@ {
        scheme is Https
    } else {
        scheme matches Scheme::Other(o) && o@ == s
    }
}

/// Maps a URL scheme string onto the host's scheme enumeration: `http` and
/// `https` onto their variants, anything else carried through verbatim.
pub fn scheme_of(s: &String) -> (r: Scheme)
    ensures
        scheme_matches(r, s@),
{
    if *s == String::from_str("http") {
        Scheme::Http
    } else if *s == String::from_str("https") {
        Scheme::Https
    } else {
        Scheme::Other(s.clone())
    }
}

/// A request translated into exactly what the host transport's outgoing
/// request resource is fed: method, scheme, authority, transmitted
/// path-with-query, the final header set, the body bytes, and the connect
/// timeout option.
pub struct SendPlan {
    pub method: Method,
    pub scheme: Scheme,
    pub authority: String,
    pub path_with_query: String,
    pub headers: Vec<(String, String)>,
    pub body: Option<Vec<u8>>,
    pub connect_timeout: Option<Duration>,
}

/// Whether no header name occurs twice in the request: true of every
/// request built through the builder, so the host is handed exactly one
/// entry per name.
pub open spec fn headers_distinct(req: Request) -> bool {
    keys_distinct(fields_view(req.headers@))
}

/// Whether two requests agree on everything but their headers.
pub open spec fn same_but_headers(a: Request, b: Request) -> bool {
    a.method == b.method && a.url == b.url && a.body == b.body && a.connect_timeout
        == b.connect_timeout
}

/// Whether two requests agree on everything but their body and headers.
pub open spec fn same_but_body(a: Request, b: Request) -> bool {
    a.method == b.method && a.url == b.url && a.connect_timeout == b.connect_timeout
}

/// A fluent, error-deferring accumulator of request intent. All errors
/// generated while building the request are deferred and surface when the
/// request is sent.
pub enum RequestBuilder {
    /// The request as accumulated so far.
    Building(Request),
    /// The first error any builder step ran into; every later call keeps
    /// it unchanged.
    Failed(Error),
}

impl RequestBuilder {
    /// Starts a request with the given method and URL: the request holds
    /// the parsed URL's components exactly when the URL parser accepts the
    /// string. An unparsable URL is the terminal error of the whole chain,
    /// captured here rather than at send time.
    pub fn new(method: Method, url: &str) -> (r: Self)
        ensures
            r is Building <==> url_parse_of(url@) is Some,
            r matches RequestBuilder::Building(req) ==> ({
                &&& url_parse_of(url@) matches Some(c)
                &&& req.url.scheme@ == c.0
                &&& req.url.authority@ == c.1
                &&& req.url.path@ == c.2
                &&& query_view(req.url.query) == c.3
                &&& req.method == method
                &&& fields_view(req.headers@) =~= Seq::<(Seq<char>, Seq<char>)>::empty()
                &&& headers_distinct(req)
                &&& req.body is None
                &&& req.connect_timeout is None
            }),
            r matches RequestBuilder::Failed(e) ==> e is UrlParse,
    {
        match url_parts::parse_url(url) {
            Ok(parts) => RequestBuilder::Building(
                Request {
                    method,
                    url: parts,
                    headers: Vec::new(),
                    body: None,
                    connect_timeout: None,
                },
            ),
            Err(_) => RequestBuilder::Failed(Error::UrlParse),
        }
    }

    /// Sets (replaces) the named header to a single value. A value the
    /// host would reject is deferred as `InvalidHeaderValue`.
    pub fn header(self, key: &str, value: &str) -> (r: Self)
        ensures
            self is Failed ==> r == self,
            self matches RequestBuilder::Building(req) ==> (value_ok(value@) ==> (
            r matches RequestBuilder::Building(req2) && same_but_headers(req2, req) && lookup(
                fields_view(req2.headers@),
                key@,
            ) == Some(value@) && (forall|k2: Seq<char>|
                k2 != key@ ==> lookup(fields_view(req2.headers@), k2) == lookup(
                    fields_view(req.headers@),
                    k2,
                )) && (headers_distinct(req) ==> headers_distinct(req2)))),
            self is Building && !value_ok(value@) ==> (r matches RequestBuilder::Failed(e)
                && e is InvalidHeaderValue),
    {
        match self {
            RequestBuilder::Failed(e) => RequestBuilder::Failed(e),
            RequestBuilder::Building(mut req) => {
                if !fields::check_value(value) {
                    RequestBuilder::Failed(Error::InvalidHeaderValue)
                } else {
                    fields::set_field(&mut req.headers, key, value);
                    RequestBuilder::Building(req)
                }
            },
        }
    }

    /// Replaces the entire header set with the given entries, in one
    /// operation: headers do not accumulate across calls to this method.
    /// With a repeated name the later entry wins; a value the host would
    /// reject is deferred as `InvalidHeaderValue`.
    pub fn headers(self, entries: &[(&str, &str)]) -> (r: Self)
        ensures
            self is Failed ==> r == self,
            self matches RequestBuilder::Building(req) ==> (entries_ok(entries_view(entries@))
                ==> (r matches RequestBuilder::Building(req2) && same_but_headers(req2, req) && (
            forall|k: Seq<char>|
                lookup(fields_view(req2.headers@), k) == assoc_last(entries_view(entries@), k))
                && headers_distinct(req2))),
            self is Building && !entries_ok(entries_view(entries@)) ==> (
            r matches RequestBuilder::Failed(e) && e is InvalidHeaderValue),
    {
        match self {
            RequestBuilder::Failed(e) => RequestBuilder::Failed(e),
            RequestBuilder::Building(mut req) => {
                if !fields::check_entries(entries) {
                    RequestBuilder::Failed(Error::InvalidHeaderValue)
                } else {
                    req.headers = fields::from_entries(entries);
                    RequestBuilder::Building(req)
                }
            },
        }
    }

    /// Serializes the pairs into query-string form and merges them into
    /// the URL's existing query component; the encoding is the
    /// serializer's, not ours, and a list of string pairs always encodes.
    pub fn query(self, pairs: &[(&str, &str)]) -> (r: Self)
        ensures
            self is Failed ==> r == self,
            self matches RequestBuilder::Building(req) ==> (
            r matches RequestBuilder::Building(req2) && req2.method == req.method && req2.body
                == req.body && req2.connect_timeout == req.connect_timeout && req2.headers
                == req.headers && req2.url.scheme == req.url.scheme && req2.url.authority
                == req.url.authority && req2.url.path == req.url.path && query_view(req2.url.query)
                == merged_query(
                query_view(req.url.query),
                encode::form_encoded(encode::pairs_view(pairs@)),
            )),
    {
        match self {
            RequestBuilder::Failed(e) => RequestBuilder::Failed(e),
            RequestBuilder::Building(mut req) => {
                let enc = encode::form_urlencode(pairs).unwrap();
                url_parts::merge_query(&mut req.url, enc.as_str());
                RequestBuilder::Building(req)
            },
        }
    }

    /// Sets a raw request body; the content type is not touched.
    pub fn body(self, bytes: &[u8]) -> (r: Self)
        ensures
            self is Failed ==> r == self,
            self matches RequestBuilder::Building(req) ==> (
            r matches RequestBuilder::Building(req2) && same_but_body(req2, req) && req2.headers
                == req.headers && (req2.body matches Some(b) && b@ == bytes@)),
    {
        match self {
            RequestBuilder::Failed(e) => RequestBuilder::Failed(e),
            RequestBuilder::Building(mut req) => {
                req.body = Some(vstd::slice::slice_to_vec(bytes));
                RequestBuilder::Building(req)
            },
        }
    }

    /// Sets `Content-Type` to `application/json` and the body to exactly
    /// the JSON rendering of the value; rendering a self-describing value
    /// always succeeds.
    pub fn json(self, value: &serde_json::Value) -> (r: Self)
        ensures
            self is Failed ==> r == self,
            self matches RequestBuilder::Building(req) ==> (
            r matches RequestBuilder::Building(req2) && same_but_body(req2, req) && lookup(
                fields_view(req2.headers@),
                "Content-Type"@,
            ) == Some("application/json"@) && (forall|k2: Seq<char>|
                k2 != "Content-Type"@ ==> lookup(fields_view(req2.headers@), k2) == lookup(
                    fields_view(req.headers@),
                    k2,
                )) && (headers_distinct(req) ==> headers_distinct(req2)) && (
            req2.body matches Some(b) && b@ == encode::json_bytes_of(*value))),
    {
        match self {
            RequestBuilder::Failed(e) => RequestBuilder::Failed(e),
            RequestBuilder::Building(mut req) => {
                fields::set_field(&mut req.headers, "Content-Type", "application/json");
                req.body = Some(encode::json_to_vec(value).unwrap());
                RequestBuilder::Building(req)
            },
        }
    }

    /// Sets `Content-Type` to `application/x-www-form-urlencoded` and the
    /// body to the form-urlencoding of the pairs; a list of string pairs
    /// always encodes.
    pub fn form(self, pairs: &[(&str, &str)]) -> (r: Self)
        ensures
            self is Failed ==> r == self,
            self matches RequestBuilder::Building(req) ==> (
            r matches RequestBuilder::Building(req2) && same_but_body(req2, req) && lookup(
                fields_view(req2.headers@),
                "Content-Type"@,
            ) == Some("application/x-www-form-urlencoded"@) && (forall|k2: Seq<char>|
                k2 != "Content-Type"@ ==> lookup(fields_view(req2.headers@), k2) == lookup(
                    fields_view(req.headers@),
                    k2,
                )) && (headers_distinct(req) ==> headers_distinct(req2)) && (
            req2.body matches Some(b) && b@ == vstd::utf8::encode_utf8(
                encode::form_encoded(encode::pairs_view(pairs@)),
            ))),
    {
        match self {
            RequestBuilder::Failed(e) => RequestBuilder::Failed(e),
            RequestBuilder::Building(mut req) => {
                fields::set_field(
                    &mut req.headers,
                    "Content-Type",
                    "application/x-www-form-urlencoded",
                );
                let data = encode::form_urlencode(pairs).unwrap();
                req.body = Some(data.as_str().as_bytes_vec());
                RequestBuilder::Building(req)
            },
        }
    }

    /// Records the connect timeout handed to the host; it governs
    /// connection establishment only.
    pub fn connect_timeout(self, timeout: Duration) -> (r: Self)
        ensures
            self is Failed ==> r == self,
            self matches RequestBuilder::Building(req) ==> (
            r matches RequestBuilder::Building(req2) && req2.method == req.method && req2.url
                == req.url && req2.headers == req.headers && req2.body == req.body
                && req2.connect_timeout == Some(timeout)),
    {
        match self {
            RequestBuilder::Failed(e) => RequestBuilder::Failed(e),
            RequestBuilder::Building(mut req) => {
                req.connect_timeout = Some(timeout);
                RequestBuilder::Building(req)
            },
        }
    }

    /// Terminal step: surfaces the first deferred error without touching
    /// the host, or translates the finished request into exactly what the
    /// host transport's resources are fed.
    pub fn send(self) -> (r: Result<SendPlan, Error>)
        ensures
            self matches RequestBuilder::Failed(e) ==> r == Err::<SendPlan, Error>(e),
            self matches RequestBuilder::Building(req) ==> (r matches Ok(p) && p.method
                == req.method && scheme_matches(p.scheme, req.url.scheme@) && p.authority
                == req.url.authority && p.path_with_query@ == path_with_query_spec(
                req.url.path@,
                query_view(req.url.query),
            ) && p.headers == req.headers && p.body == req.body && p.connect_timeout
                == req.connect_timeout),
    {
        match self {
            RequestBuilder::Failed(e) => Err(e),
            RequestBuilder::Building(req) => {
                let scheme = scheme_of(&req.url.scheme);
                let path_with_query = url_parts::path_with_query(&req.url);
                Ok(
                    SendPlan {
                        method: req.method,
                        scheme,
                        authority: req.url.authority,
                        path_with_query,
                        headers: req.headers,
                        body: req.body,
                        connect_timeout: req.connect_timeout,
                    },
                )
            },
        }
    }
}

} // verus!
