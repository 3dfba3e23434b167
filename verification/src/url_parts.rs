//! The components of a parsed absolute URL, held as plain strings.
//!
//! Parsing itself is the URL collaborator's job; everything the client then
//! does with the components — merging a query, building the path-with-query
//! the host transmits — is plain string logic and is specified here.

use crate::encode;
use vstd::prelude::*;

verus! {

#[verifier::external_type_specification]
#[verifier::external_body]
pub struct ExUrlParseError(url::ParseError);

/// What the client reads of a parsed absolute URL: scheme, authority
/// (host with an optional port), path, and the query component if one is
/// present.
pub struct UrlParts {
    pub scheme: String,
    pub authority: String,
    pub path: String,
    pub query: Option<String>,
}

/// The query component as the contracts see it.
pub open spec fn query_view(q: Option<String>) -> Option<Seq<char>> {
    match q {
        Some(s) => Some(s@),
        None => None,
    }
}

/// What the URL parser makes of a string: nothing when it is rejected,
/// else the scheme, authority, path and optional query of the parsed URL,
/// in that order. Parsing (normalization included) depends on the string
/// alone.
pub uninterp spec fn url_parse_of(s: Seq<char>) -> Option<
    (Seq<char>, Seq<char>, Seq<char>, Option<Seq<char>>),
>;

/// Relies on url::Url::parse for splitting an absolute URL string into its
/// components: it accepts exactly the strings the parser accepts, and the
/// components of the parsed URL are copied out as plain strings.
#[verifier::external_body]
pub(crate) fn parse_url(s: &str) -> (r: Result<UrlParts, url::ParseError>)
    ensures
        r is Ok <==> url_parse_of(s@) is Some,
        r matches Ok(u) ==> (url_parse_of(s@) matches Some(c) && u.scheme@ == c.0 && u.authority@
            == c.1 && u.path@ == c.2 && query_view(u.query) == c.3),
{
    let u = url::Url::parse(s)?;
    Ok(UrlParts {
        scheme: u.scheme().to_string(),
        authority: u.authority().to_string(),
        path: u.path().to_string(),
        query: u.query().map(|q| q.to_string()),
    })
}

/// The query after an encoded pair list is merged into it: appended to a
/// non-empty existing query with a `&` between, standing alone otherwise,
/// and nothing changes when there was nothing to merge.
pub open spec fn merged_query(old_q: Option<Seq<char>>, enc: Seq<char>) -> Option<Seq<char>> {
    if enc.len() == 0 {
        old_q
    } else {
        match old_q {
            None => Some(enc),
            Some(q) => if q.len() == 0 {
                Some(enc)
            } else {
                Some(q + "&"@ + enc)
            },
        }
    }
}

/// Merges an already-encoded query fragment into the URL's query
/// component; every other component is untouched.
pub fn merge_query(u: &mut UrlParts, enc: &str)
    ensures
        final(u).scheme == old(u).scheme,
        final(u).authority == old(u).authority,
        final(u).path == old(u).path,
        query_view(final(u).query) == merged_query(query_view(old(u).query), enc@),
{
    if enc.is_empty() {
        return;
    }
    let merged: String = match &u.query {
        None => String::from_str(enc),
        Some(q) => {
            if q.as_str().is_empty() {
                String::from_str(enc)
            } else {
                let mut m = q.clone();
                m.append("&");
                m.append(enc);
                m
            }
        },
    };
    u.query = Some(merged);
}

/// What an HTTP request line would carry for this URL: the path, and the
/// query appended after a `?` when one is present.
pub open spec fn path_with_query_spec(path: Seq<char>, query: Option<Seq<char>>) -> Seq<char> {
    match query {
        None => path,
        Some(q) => path + "?"@ + q,
    }
}

/// Builds the transmitted path-with-query, byte for byte: no re-encoding,
/// and no trailing `?` when the URL has no query.
pub fn path_with_query(u: &UrlParts) -> (r: String)
    ensures
        r@ == path_with_query_spec(u.path@, query_view(u.query)),
{
    let mut r = u.path.clone();
    match &u.query {
        Some(q) => {
            r.append("?");
            r.append(q.as_str());
        },
        None => {},
    }
    r
}

} // verus!
