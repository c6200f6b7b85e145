//! The replies of the HTTP front end, decided from what the request named
//! and what the cache answered.

use vstd::prelude::*;
use vstd::string::{StrSliceExecFns, StringSliceAdditionalSpecFns};
use crate::text::{canonical_decimal, decimal_chars, decimal_reads_back, decimal_text, decimal_value};

verus! {

/// A header that a reply may carry.
#[derive(Clone, Copy, Debug, PartialEq, Eq)]
pub enum ReplyHeader {
    /// `x-cache-server-key`: the key that the request named.
    CacheServerKey,
    /// `content-length`.
    ContentLength,
    /// `grpc-status`.
    GrpcStatus,
    /// `content-type`.
    ContentType,
}

impl ReplyHeader {
    /// The header's name on the wire.
    pub fn name(&self) -> (s: &'static str)
        ensures
            s@ == header_name(*self),
    {
        match self {
            ReplyHeader::CacheServerKey => "x-cache-server-key",
            ReplyHeader::ContentLength => "content-length",
            ReplyHeader::GrpcStatus => "grpc-status",
            ReplyHeader::ContentType => "content-type",
        }
    }
}

/// The name of a header on the wire.
pub open spec fn header_name(h: ReplyHeader) -> Seq<char> {
    match h {
        ReplyHeader::CacheServerKey => "x-cache-server-key"@,
        ReplyHeader::ContentLength => "content-length"@,
        ReplyHeader::GrpcStatus => "grpc-status"@,
        ReplyHeader::ContentType => "content-type"@,
    }
}

/// A reply: its status, its headers in order, and its body.
#[derive(Debug, PartialEq, Eq)]
pub struct HttpReply {
    pub status: u16,
    pub headers: Vec<(ReplyHeader, String)>,
    pub body: Vec<u8>,
}

/// A refused request: the status and the message that explains it.
#[derive(Debug, PartialEq, Eq)]
pub struct HttpFailure {
    pub status: u16,
    pub message: String,
}

/// The headers as mathematical values.
pub open spec fn headers_view(h: Seq<(ReplyHeader, String)>) -> Seq<(ReplyHeader, Seq<char>)> {
    h.map_values(|p: (ReplyHeader, String)| (p.0, p.1@))
}

/// The header that echoes the key a request named.
pub fn header_key(key: String) -> (h: (ReplyHeader, String))
    ensures
        h.0 == ReplyHeader::CacheServerKey,
        h.1@ == key@,
{
    (ReplyHeader::CacheServerKey, key)
}

fn length_header(content: &Vec<u8>) -> (h: (ReplyHeader, String))
    ensures
        h.0 == ReplyHeader::ContentLength,
        h.1@ == decimal_chars(content.len() as nat),
{
    (ReplyHeader::ContentLength, decimal_text(content.len() as u64))
}

/// What `GET /get/{key}` answers for what the cache holds under the key:
/// a miss is a 404 that names the key; a hit is a 200 whose body is the
/// stored bytes and whose `content-length` gives their number.
pub open spec fn get_cache_meets(key: Seq<char>, stored: Option<Seq<u8>>, r: HttpReply) -> bool {
    match stored {
        None => r.status == 404 && headers_view(r.headers@) == seq![(ReplyHeader::CacheServerKey, key)]
            && r.body@ == Seq::<u8>::empty(),
        Some(c) => r.status == 200 && headers_view(r.headers@) == seq![
            (ReplyHeader::ContentLength, decimal_chars(c.len())),
        ] && r.body@ == c,
    }
}

/// What `GET /get` answers once its key is known: as `GET /get/{key}`, but
/// a hit names the key too, before the length.
pub open spec fn get_cache_key_meets(key: Seq<char>, stored: Option<Seq<u8>>, r: HttpReply) -> bool {
    match stored {
        None => r.status == 404 && headers_view(r.headers@) == seq![(ReplyHeader::CacheServerKey, key)]
            && r.body@ == Seq::<u8>::empty(),
        Some(c) => r.status == 200 && headers_view(r.headers@) == seq![
            (ReplyHeader::CacheServerKey, key),
            (ReplyHeader::ContentLength, decimal_chars(c.len())),
        ] && r.body@ == c,
    }
}

/// On a hit, both lookups give a `content-length` that is the body's length
/// in decimal: its text reads back as the number of bytes in the body.
pub proof fn hit_length_reads_back(key: Seq<char>, content: Seq<u8>, by_path: HttpReply, by_header: HttpReply)
    requires
        get_cache_meets(key, Some(content), by_path),
        get_cache_key_meets(key, Some(content), by_header),
    ensures
        headers_view(by_path.headers@)[0].0 == ReplyHeader::ContentLength,
        canonical_decimal(headers_view(by_path.headers@)[0].1),
        decimal_value(headers_view(by_path.headers@)[0].1) == by_path.body@.len(),
        headers_view(by_header.headers@)[1].0 == ReplyHeader::ContentLength,
        canonical_decimal(headers_view(by_header.headers@)[1].1),
        decimal_value(headers_view(by_header.headers@)[1].1) == by_header.body@.len(),
{
    decimal_reads_back(content.len());
}

/// The two ways of reading a key over HTTP agree: for the same key and the
/// same cache content they answer with the same status and body, and a
/// hit read by header names the key before what the other gives.
pub proof fn lookup_replies_agree(key: Seq<char>, stored: Option<Seq<u8>>, by_path: HttpReply, by_header: HttpReply)
    requires
        get_cache_meets(key, stored, by_path),
        get_cache_key_meets(key, stored, by_header),
    ensures
        by_path.status == by_header.status,
        by_path.body@ == by_header.body@,
        stored is Some ==> headers_view(by_header.headers@) == seq![(ReplyHeader::CacheServerKey, key)] + headers_view(by_path.headers@),
        stored is None ==> headers_view(by_header.headers@) == headers_view(by_path.headers@),
{
    if stored is Some {
        assert(headers_view(by_header.headers@) =~= seq![(ReplyHeader::CacheServerKey, key)] + headers_view(by_path.headers@));
    }
}

/// What `GET /get/{key}` answers: `stored` is what the cache holds under
/// the key. A miss is a 404 that names the key; a hit is a 200 whose
/// body is the stored bytes and whose `content-length` gives their number.
pub fn get_cache(key: String, stored: Option<Vec<u8>>) -> (r: HttpReply)
    ensures
        get_cache_meets(key@, stored.deep_view(), r),
{
    match stored {
        None => {
            let mut headers: Vec<(ReplyHeader, String)> = Vec::new();
            headers.push(header_key(key));
            let r = HttpReply { status: 404, headers, body: Vec::new() };
            assert(headers_view(r.headers@) =~= seq![(ReplyHeader::CacheServerKey, key@)]);
            r
        },
        Some(content) => {
            assert(content.deep_view() =~= content@);
            let mut headers: Vec<(ReplyHeader, String)> = Vec::new();
            headers.push(length_header(&content));
            let r = HttpReply { status: 200, headers, body: content };
            assert(headers_view(r.headers@) =~= seq![
                (ReplyHeader::ContentLength, decimal_chars(r.body.len() as nat)),
            ]);
            r
        },
    }
}

/// The key that `GET /get` and `POST /set` read from the
/// `x-cache-server-key` header; without it the request is refused with a
/// 400 that says "No key".
pub fn requested_key(header: Option<String>) -> (r: Result<String, HttpFailure>)
    ensures
        match header {
            Some(k) => r matches Ok(key) && key@ == k@,
            None => r matches Err(f) && f.status == 400 && f.message@ == "No key"@,
        },
{
    match header {
        Some(k) => Ok(k),
        None => Err(HttpFailure { status: 400, message: "No key".to_owned() }),
    }
}

/// What `GET /get` answers once the key is known: like `get_cache`, but a
/// hit names the key too, before the length.
pub fn get_cache_key(key: String, stored: Option<Vec<u8>>) -> (r: HttpReply)
    ensures
        get_cache_key_meets(key@, stored.deep_view(), r),
{
    match stored {
        None => {
            let mut headers: Vec<(ReplyHeader, String)> = Vec::new();
            headers.push(header_key(key));
            let r = HttpReply { status: 404, headers, body: Vec::new() };
            assert(headers_view(r.headers@) =~= seq![(ReplyHeader::CacheServerKey, key@)]);
            r
        },
        Some(content) => {
            assert(content.deep_view() =~= content@);
            let mut headers: Vec<(ReplyHeader, String)> = Vec::new();
            headers.push(header_key(key));
            headers.push(length_header(&content));
            let r = HttpReply { status: 200, headers, body: content };
            assert(headers_view(r.headers@) =~= seq![
                (ReplyHeader::CacheServerKey, key@),
                (ReplyHeader::ContentLength, decimal_chars(r.body.len() as nat)),
            ]);
            r
        },
    }
}

/// What `POST /set/{key}` answers once the body was stored (`Ok`) or not
/// (`Err` with the reason): a 200 that names the key, or a 400 that gives
/// the reason.
pub fn set_cache_key(key: String, stored: Result<(), String>) -> (r: Result<HttpReply, HttpFailure>)
    ensures
        match stored {
            Ok(()) => r matches Ok(reply) && reply.status == 200
                && headers_view(reply.headers@) == seq![(ReplyHeader::CacheServerKey, key@)]
                && reply.body@ == Seq::<u8>::empty(),
            Err(reason) => r matches Err(f) && f.status == 400 && f.message@ == reason@,
        },
{
    match stored {
        Ok(()) => {
            let mut headers: Vec<(ReplyHeader, String)> = Vec::new();
            headers.push(header_key(key));
            let r = HttpReply { status: 200, headers, body: Vec::new() };
            assert(headers_view(r.headers@) =~= seq![(ReplyHeader::CacheServerKey, key@)]);
            Ok(r)
        },
        Err(reason) => Err(HttpFailure { status: 400, message: reason }),
    }
}

/// What `POST /set` answers once the body was stored or not: a 200 that
/// names the key, or a 500 that says "Unable to set key".
pub fn set_cache(key: String, stored: Result<(), String>) -> (r: Result<HttpReply, HttpFailure>)
    ensures
        match stored {
            Ok(()) => r matches Ok(reply) && reply.status == 200
                && headers_view(reply.headers@) == seq![(ReplyHeader::CacheServerKey, key@)]
                && reply.body@ == Seq::<u8>::empty(),
            Err(_) => r matches Err(f) && f.status == 500 && f.message@ == "Unable to set key"@,
        },
{
    match stored {
        Ok(()) => {
            let mut headers: Vec<(ReplyHeader, String)> = Vec::new();
            headers.push(header_key(key));
            let r = HttpReply { status: 200, headers, body: Vec::new() };
            assert(headers_view(r.headers@) =~= seq![(ReplyHeader::CacheServerKey, key@)]);
            Ok(r)
        },
        Err(_) => Err(HttpFailure { status: 500, message: "Unable to set key".to_owned() }),
    }
}

/// What every other path answers: a 200 with a greeting.
pub fn default_handler() -> (r: HttpReply)
    ensures
        r.status == 200,
        r.headers@.len() == 0,
        r.body@ == "zdravo, svete!".spec_bytes(),
{
    HttpReply { status: 200, headers: Vec::new(), body: "zdravo, svete!".as_bytes_vec() }
}

} // verus!
