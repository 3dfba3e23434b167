//! The materialized response: status, decoded headers, and the body as the
//! host delivered it.
//!
//! The driver reads the host's body stream to completion while the
//! response is constructed (the eager strategy), keeping the arrived
//! segments as they came. The body is then replayed through a pull-based
//! [`Response::chunk`] reader or taken whole with [`Response::body`]; no
//! byte is skipped or duplicated and end of body is one terminal `None`.
//!
//! Header values arrive from the host as raw bytes and are decoded
//! strictly: a value that is not valid UTF-8 fails the whole response with
//! [`Error::InvalidHeaderEncoding`]; nothing is silently substituted.

use crate::encode;
use crate::error::Error;
use crate::fields::fields_view;
use vstd::prelude::*;
use vstd::utf8::{decode_utf8, valid_utf8};

verus! {

/// A list of body segments as the contracts see it.
pub open spec fn segs_view(ss: Seq<Vec<u8>>) -> Seq<Seq<u8>> {
    ss.map_values(|v: Vec<u8>| v@)
}

/// A raw header list, as handed over from the host, as the contracts see
/// it.
pub open spec fn raw_fields_view(rh: Seq<(String, Vec<u8>)>) -> Seq<(Seq<char>, Seq<u8>)> {
    rh.map_values(|p: (String, Vec<u8>)| (p.0@, p.1@))
}

/// Whether every raw header value is valid UTF-8: exactly when
/// constructing a response succeeds.
pub open spec fn all_values_utf8(rh: Seq<(Seq<char>, Seq<u8>)>) -> bool {
    forall|i: int| 0 <= i < rh.len() ==> valid_utf8((#[trigger] rh[i]).1)
}

/// The raw header list with every value decoded.
pub open spec fn decoded_fields(rh: Seq<(Seq<char>, Seq<u8>)>) -> Seq<(Seq<char>, Seq<char>)> {
    rh.map_values(|p: (Seq<char>, Seq<u8>)| (p.0, decode_utf8(p.1)))
}

/// A chunk view: the returned bytes, if any.
pub open spec fn chunk_view(r: Option<Vec<u8>>) -> Option<Seq<u8>> {
    match r {
        Some(c) => Some(c@),
        None => None,
    }
}

/// What one pull of up to `len` bytes returns and leaves behind: nothing
/// at end of body; otherwise the front segment whole when it fits, or its
/// first `len` bytes with the rest left at the front. Segments are never
/// merged, so bytes come back in arrival order.
pub open spec fn chunk_spec(segs: Seq<Seq<u8>>, len: u64) -> (Option<Seq<u8>>, Seq<Seq<u8>>) {
    if segs.len() == 0 {
        (None, segs)
    } else {
        let front = segs[0];
        if front.len() <= len {
            (Some(front), segs.drop_first())
        } else {
            (
                Some(front.subrange(0, len as int)),
                segs.update(0, front.subrange(len as int, front.len() as int)),
            )
        }
    }
}

/// A pull conserves the body: what it returns, followed by what it leaves,
/// is exactly what was there — no byte skipped, none duplicated.
pub proof fn lemma_chunk_conserves(segs: Seq<Seq<u8>>, len: u64)
    ensures
        chunk_spec(segs, len).0 matches Some(c) ==> c + chunk_spec(segs, len).1.flatten()
            == segs.flatten(),
{
    if segs.len() != 0 {
        let front = segs[0];
        assert(segs.flatten() == segs.first() + segs.drop_first().flatten());
        if front.len() <= len {
        } else {
            let c = front.subrange(0, len as int);
            let rest = front.subrange(len as int, front.len() as int);
            let left = segs.update(0, rest);
            assert(left.drop_first() =~= segs.drop_first());
            assert(left.flatten() == left.first() + left.drop_first().flatten());
            assert(c + (rest + segs.drop_first().flatten()) =~= (c + rest)
                + segs.drop_first().flatten());
            assert(c + rest =~= front);
        }
    }
}

/// The terminal `None` is stable: at end of body a pull changes nothing,
/// and every later pull — of whatever size — reports end of body again.
pub proof fn lemma_chunk_none_terminal(segs: Seq<Seq<u8>>, len1: u64, len2: u64)
    ensures
        chunk_spec(segs, len1).0 is None ==> chunk_spec(segs, len1).1 == segs,
        chunk_spec(segs, len1).0 is None ==> chunk_spec(chunk_spec(segs, len1).1, len2).0 is None,
{
}

/// A response with status and headers extracted and the body segments
/// materialized, still replayable segment by segment.
pub struct Response {
    pub status: u16,
    pub headers: Vec<(String, String)>,
    pub segments: Vec<Vec<u8>>,
}

impl Response {
    /// The body segments not yet handed out.
    pub open spec fn remaining(self) -> Seq<Seq<u8>> {
        segs_view(self.segments@)
    }

    /// The body bytes not yet handed out, in order.
    pub open spec fn remaining_bytes(self) -> Seq<u8> {
        self.remaining().flatten()
    }

    /// Builds a response from what the driver extracted from the host
    /// resources: the status code, the raw header entries, and the body
    /// segments in arrival order. Every header value is decoded as strict
    /// UTF-8; the first undecodable value fails the whole response.
    pub fn new(status: u16, raw_headers: Vec<(String, Vec<u8>)>, segments: Vec<Vec<u8>>) -> (r:
        Result<Response, Error>)
        ensures
            r is Ok <==> all_values_utf8(raw_fields_view(raw_headers@)),
            r matches Ok(resp) ==> resp.status == status && fields_view(resp.headers@)
                == decoded_fields(raw_fields_view(raw_headers@)) && resp.remaining() == segs_view(
                segments@,
            ),
            r matches Err(e) ==> e is InvalidHeaderEncoding,
    {
        let n: usize = raw_headers.len();
        let mut headers: Vec<(String, String)> = Vec::new();
        let mut i: usize = 0;
        while i < n
            invariant
                n == raw_headers@.len(),
                i <= n,
                headers@.len() == i,
                forall|j: int| 0 <= j < i ==> valid_utf8((#[trigger] raw_fields_view(
                    raw_headers@,
                )[j]).1),
                forall|j: int|
                    0 <= j < i ==> #[trigger] fields_view(headers@)[j] == decoded_fields(
                        raw_fields_view(raw_headers@),
                    )[j],
            decreases n - i,
        {
            let ghost prev = headers@;
            match encode::utf8_to_string(&raw_headers[i].1) {
                Ok(value) => {
                    headers.push((raw_headers[i].0.clone(), value));
                    proof {
                        assert forall|j: int| 0 <= j < i + 1 implies #[trigger] fields_view(
                            headers@,
                        )[j] == decoded_fields(raw_fields_view(raw_headers@))[j] by {
                            assert(fields_view(headers@)[j] == (headers@[j].0@, headers@[j].1@));
                            assert(decoded_fields(raw_fields_view(raw_headers@))[j] == (
                                raw_headers@[j].0@,
                                decode_utf8(raw_headers@[j].1@),
                            ));
                            if j < i {
                                assert(headers@[j] == prev[j]);
                                assert(fields_view(prev)[j] == (prev[j].0@, prev[j].1@));
                            }
                        }
                    }
                },
                Err(_) => {
                    assert(!valid_utf8(raw_fields_view(raw_headers@)[i as int].1));
                    return Err(Error::InvalidHeaderEncoding);
                },
            }
            i += 1;
        }
        proof {
            assert(fields_view(headers@) =~= decoded_fields(raw_fields_view(raw_headers@)));
        }
        Ok(Response { status, headers, segments })
    }

    /// The status code of the response.
    pub fn status(&self) -> (r: u16)
        ensures
            r == self.status,
    {
        self.status
    }

    /// The decoded headers of the response, as (name, value) entries in
    /// the host's order.
    pub fn headers(&self) -> (r: &Vec<(String, String)>)
        ensures
            r == &self.headers,
    {
        &self.headers
    }

    /// Hands out the next chunk of the body, at most `len` bytes: the
    /// segments come back in arrival order, never merged, and after the
    /// last one every call returns `None` — end of body is not an error.
    pub fn chunk(&mut self, len: u64) -> (r: Option<Vec<u8>>)
        ensures
            final(self).status == old(self).status,
            final(self).headers == old(self).headers,
            chunk_view(r) == chunk_spec(old(self).remaining(), len).0,
            final(self).remaining() == chunk_spec(old(self).remaining(), len).1,
            r matches Some(c) ==> c@ + final(self).remaining_bytes() == old(
                self,
            ).remaining_bytes(),
    {
        proof {
            lemma_chunk_conserves(old(self).remaining(), len);
        }
        if self.segments.is_empty() {
            return None;
        }
        let mut front = self.segments.remove(0);
        proof {
            assert(segs_view(self.segments@) =~= old(self).remaining().drop_first());
        }
        if front.len() as u64 <= len {
            Some(front)
        } else {
            let ghost whole = front@;
            let rest = front.split_off(len as usize);
            self.segments.insert(0, rest);
            proof {
                assert(segs_view(self.segments@) =~= old(self).remaining().update(
                    0,
                    whole.subrange(len as int, whole.len() as int),
                ));
            }
            Some(front)
        }
    }

    /// The whole remaining body, read to the end: every byte still held,
    /// in arrival order.
    pub fn body(self) -> (r: Vec<u8>)
        ensures
            r@ == self.remaining_bytes(),
    {
        let ghost total = self.remaining_bytes();
        let mut resp = self;
        let mut out: Vec<u8> = Vec::new();
        loop
            invariant
                out@ + resp.remaining_bytes() == total,
            ensures
                out@ + resp.remaining_bytes() == total,
                resp.remaining().len() == 0,
            decreases resp.remaining_bytes().len(), resp.remaining().len(),
        {
            let ghost out_before = out@;
            let ghost rem_before = resp.remaining();
            match resp.chunk(1048576) {
                Some(mut c) => {
                    let ghost c_view = c@;
                    out.append(&mut c);
                    proof {
                        assert((out_before + c_view) + resp.remaining_bytes() =~= out_before + (
                        c_view + resp.remaining_bytes()));
                        if c_view.len() == 0 {
                            assert(resp.remaining().len() < rem_before.len());
                        }
                    }
                },
                None => {
                    break;
                },
            }
        }
        proof {
            assert(resp.remaining_bytes() =~= Seq::<u8>::empty());
            assert(out@ + resp.remaining_bytes() =~= out@);
        }
        out
    }

    /// Reads the whole remaining body and decodes it as JSON: `Ok` exactly
    /// when the body is a well-formed JSON document.
    pub fn json(self) -> (r: Result<serde_json::Value, Error>)
        ensures
            r is Ok <==> encode::json_parses(self.remaining_bytes()),
            r matches Err(e) ==> e is Serialization,
    {
        let bytes = self.body();
        match encode::json_from_slice(&bytes) {
            Ok(v) => Ok(v),
            Err(_) => Err(Error::Serialization),
        }
    }
}

} // verus!
