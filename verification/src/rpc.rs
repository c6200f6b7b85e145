//! The cache's gRPC service: which call a path names, what a lookup
//! answers, and how content is streamed in chunks.

use vstd::prelude::*;
use crate::replies::{get_cache_meets, headers_view, HttpReply, ReplyHeader};

verus! {

/// A request for the content stored under `path`.
#[derive(Debug, PartialEq, Eq)]
pub struct CacheRequest {
    pub path: String,
}

/// Content, or a piece of it when it is streamed.
#[derive(Debug, PartialEq, Eq)]
pub struct CacheResponse {
    pub content: Vec<u8>,
}

/// The gRPC status codes that the service answers with.
#[derive(Clone, Copy, Debug, PartialEq, Eq)]
pub enum RpcCode {
    NotFound,
    Unauthenticated,
}

/// A call that failed: its code and message.
#[derive(Debug, PartialEq, Eq)]
pub struct RpcStatus {
    pub code: RpcCode,
    pub message: String,
}

/// The calls that the service answers.
#[derive(Clone, Copy, Debug, PartialEq, Eq)]
pub enum CacheRoute {
    GetContent,
    GetContentStream,
    Unimplemented,
}

/// The size of the pieces that content is streamed in.
pub const CHUNK_SIZE: usize = 4096;

/// Fetches content that the cache does not hold. Nothing is fetched yet:
/// the answer is always that there is none.
pub fn populate_cache(_key: &str) -> (r: Option<Vec<u8>>)
    ensures
        r is None,
{
    None
}

/// The content for `key`, given what the cache holds under it (`stored`):
/// the stored bytes, or else what `populate_cache` fetches.
pub fn get_cached_value(stored: Option<Vec<u8>>, key: &str) -> (r: Option<Vec<u8>>)
    ensures
        r == stored,
{
    let mut value = stored;
    if value.is_none() {
        value = populate_cache(key);
    }
    value
}

/// The message of a lookup that found nothing.
pub open spec fn not_found_message() -> Seq<char> {
    "Cache item is not found"@
}

/// What `GetContent` answers for what the cache holds under the requested
/// path: the content, or `NotFound` with "Cache item is not found".
pub open spec fn get_content_meets(stored: Option<Seq<u8>>, r: Result<CacheResponse, RpcStatus>) -> bool {
    match stored {
        Some(c) => r matches Ok(resp) && resp.content@ == c,
        None => r matches Err(s) && s.code == RpcCode::NotFound && s.message@ == not_found_message(),
    }
}

/// What `GetContent` answers for `request`, given what the cache holds
/// under `request.path`: the content, or `NotFound`.
pub fn get_content(request: &CacheRequest, stored: Option<Vec<u8>>) -> (r: Result<CacheResponse, RpcStatus>)
    ensures
        get_content_meets(stored.deep_view(), r),
{
    match get_cached_value(stored, request.path.as_str()) {
        Some(content) => {
            assert(content.deep_view() =~= content@);
            Ok(CacheResponse { content })
        },
        None => Err(RpcStatus { code: RpcCode::NotFound, message: "Cache item is not found".to_owned() }),
    }
}

/// The number of pieces that `len` bytes are streamed in.
pub open spec fn chunk_count(len: nat) -> nat {
    ((len + 4095) / 4096) as nat
}

/// The `i`th piece of `content`.
pub open spec fn chunk_of(content: Seq<u8>, i: int) -> Seq<u8> {
    let end = if (i + 1) * 4096 < content.len() { (i + 1) * 4096 } else { content.len() as int };
    content.subrange(i * 4096, end)
}

/// The bytes of a stream of pieces, one after the other.
pub open spec fn joined(pieces: Seq<CacheResponse>) -> Seq<u8>
    decreases pieces.len(),
{
    if pieces.len() == 0 {
        Seq::empty()
    } else {
        joined(pieces.drop_last()) + pieces.last().content@
    }
}

/// Whether `pieces` is `content` cut into pieces of `CHUNK_SIZE` bytes,
/// the last one possibly shorter.
pub open spec fn chunked(content: Seq<u8>, pieces: Seq<CacheResponse>) -> bool {
    &&& pieces.len() == chunk_count(content.len())
    &&& forall|i: int| 0 <= i < pieces.len() ==> (#[trigger] pieces[i]).content@ == chunk_of(content, i)
}

/// The first `k` pieces join up to the bytes they were cut from.
proof fn joined_prefix(content: Seq<u8>, pieces: Seq<CacheResponse>, k: int)
    requires
        chunked(content, pieces),
        0 <= k <= pieces.len(),
    ensures
        joined(pieces.take(k)) == content.subrange(0, if k * 4096 < content.len() { k * 4096 } else { content.len() as int }),
    decreases k,
{
    if k == 0 {
        assert(pieces.take(0) =~= Seq::<CacheResponse>::empty());
        assert(content.subrange(0, 0) =~= Seq::<u8>::empty());
    } else {
        joined_prefix(content, pieces, k - 1);
        assert(pieces.take(k).drop_last() =~= pieces.take(k - 1));
        assert(pieces.take(k).last() == pieces[k - 1]);
        let end = if k * 4096 < content.len() { k * 4096 } else { content.len() as int };
        assert(content.subrange(0, end) =~= content.subrange(0, (k - 1) * 4096) + content.subrange((k - 1) * 4096, end));
    }
}

/// Content cut into pieces of `CHUNK_SIZE` bytes comes back whole when the
/// pieces are put together in the order they are sent.
pub proof fn chunks_rejoin(content: Seq<u8>, pieces: Seq<CacheResponse>)
    requires
        chunked(content, pieces),
    ensures
        joined(pieces) == content,
{
    joined_prefix(content, pieces, pieces.len() as int);
    assert(pieces.take(pieces.len() as int) =~= pieces);
    assert(content.subrange(0, content.len() as int) =~= content);
}

/// The two gRPC calls agree: where `GetContent` answers with content, the
/// pieces that `GetContentStream` sends join up to that content; where it
/// answers `NotFound`, the stream sends nothing.
pub proof fn stream_agrees_with_lookup(
    stored: Option<Seq<u8>>,
    unary: Result<CacheResponse, RpcStatus>,
    pieces: Seq<CacheResponse>,
)
    requires
        get_content_meets(stored, unary),
        match stored {
            Some(c) => chunked(c, pieces),
            None => pieces.len() == 0,
        },
    ensures
        unary matches Ok(resp) ==> joined(pieces) == resp.content@,
        unary is Err ==> pieces.len() == 0,
{
    if let Some(c) = stored {
        chunks_rejoin(c, pieces);
    }
}

/// The HTTP and gRPC front ends agree on a lookup: a 200 from
/// `GET /get/{key}` carries exactly the content that `GetContent` answers,
/// and a 404 comes exactly when `GetContent` answers `NotFound`.
pub proof fn front_ends_agree(
    key: Seq<char>,
    stored: Option<Seq<u8>>,
    http: HttpReply,
    grpc: Result<CacheResponse, RpcStatus>,
)
    requires
        get_cache_meets(key, stored, http),
        get_content_meets(stored, grpc),
    ensures
        http.status == 200 <==> grpc is Ok,
        http.status == 404 <==> (grpc matches Err(s) && s.code == RpcCode::NotFound),
        grpc matches Ok(resp) ==> http.body@ == resp.content@,
{
}

/// Cuts `content` into pieces of `CHUNK_SIZE` bytes, the last one
/// possibly shorter; nothing when `content` is empty.
pub fn content_chunks(content: &Vec<u8>) -> (pieces: Vec<CacheResponse>)
    ensures
        chunked(content@, pieces@),
        joined(pieces@) == content@,
        forall|i: int| 0 <= i < pieces@.len() ==> 0 < (#[trigger] pieces@[i]).content@.len() <= CHUNK_SIZE,
{
    let mut pieces: Vec<CacheResponse> = Vec::new();
    let mut start: usize = 0;
    let len: usize = content.len();
    while start < len
        invariant
            len == content@.len(),
            start <= len,
            start < len ==> start == pieces@.len() * 4096,
            pieces@.len() * 4096 < len + 4096,
            pieces@.len() == chunk_count(start as nat),
            forall|i: int| 0 <= i < pieces@.len() ==> (#[trigger] pieces@[i]).content@ == chunk_of(content@, i),
            joined(pieces@) == content@.subrange(0, start as int),
        decreases len - start,
    {
        let end: usize = if len - start > CHUNK_SIZE { start + CHUNK_SIZE } else { len };
        let mut piece: Vec<u8> = Vec::new();
        let mut k: usize = start;
        while k < end
            invariant
                start <= k <= end <= len,
                len == content@.len(),
                piece@ == content@.subrange(start as int, k as int),
            decreases end - k,
        {
            piece.push(content[k]);
            proof {
                assert(piece@ =~= content@.subrange(start as int, k + 1));
            }
            k = k + 1;
        }
        let ghost old_pieces = pieces@;
        pieces.push(CacheResponse { content: piece });
        proof {
            assert(pieces@.drop_last() =~= old_pieces);
            assert(content@.subrange(0, end as int) =~= content@.subrange(0, start as int)
                + content@.subrange(start as int, end as int));
        }
        start = end;
    }
    proof {
        assert(content@.subrange(0, len as int) =~= content@);
    }
    pieces
}

/// What `GetContentStream` sends for what the cache holds under the
/// requested path: the content in pieces, or nothing.
pub fn content_stream(stored: Option<Vec<u8>>, key: &str) -> (pieces: Vec<CacheResponse>)
    ensures
        match stored {
            Some(c) => chunked(c@, pieces@) && joined(pieces@) == c@,
            None => pieces@.len() == 0,
        },
{
    match get_cached_value(stored, key) {
        Some(content) => content_chunks(&content),
        None => Vec::new(),
    }
}

/// The call that a request path names.
pub open spec fn route_of(path: Seq<char>) -> CacheRoute {
    if path == "/cache_server.CacheService/GetContent"@ {
        CacheRoute::GetContent
    } else if path == "/cache_server.CacheService/GetContentStream"@ {
        CacheRoute::GetContentStream
    } else {
        CacheRoute::Unimplemented
    }
}

/// Which call of the service a request path names.
pub fn route_for_path(path: &str) -> (r: CacheRoute)
    ensures
        r == route_of(path@),
{
    let p = path.to_owned();
    if p == "/cache_server.CacheService/GetContent".to_owned() {
        CacheRoute::GetContent
    } else if p == "/cache_server.CacheService/GetContentStream".to_owned() {
        CacheRoute::GetContentStream
    } else {
        CacheRoute::Unimplemented
    }
}

/// The reply to a call that the service does not have: HTTP 200 with gRPC
/// status 12 (unimplemented), as gRPC content, with no body.
pub fn unimplemented_reply() -> (r: HttpReply)
    ensures
        r.status == 200,
        headers_view(r.headers@) == seq![
            (ReplyHeader::GrpcStatus, "12"@),
            (ReplyHeader::ContentType, "application/grpc"@),
        ],
        r.body@.len() == 0,
{
    let mut headers: Vec<(ReplyHeader, String)> = Vec::new();
    headers.push((ReplyHeader::GrpcStatus, "12".to_owned()));
    headers.push((ReplyHeader::ContentType, "application/grpc".to_owned()));
    let r = HttpReply { status: 200, headers, body: Vec::new() };
    assert(headers_view(r.headers@) =~= seq![
        (ReplyHeader::GrpcStatus, "12"@),
        (ReplyHeader::ContentType, "application/grpc"@),
    ]);
    r
}

} // verus!
