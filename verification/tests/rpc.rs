use cache_server::replies::{get_cache, ReplyHeader};
use cache_server::rpc::{
    content_chunks, content_stream, get_cached_value, get_content, populate_cache, route_for_path, unimplemented_reply,
    CacheRequest, CacheResponse, CacheRoute, RpcCode, CHUNK_SIZE,
};

fn request(path: &str) -> CacheRequest {
    CacheRequest { path: path.to_string() }
}

#[test]
fn populate_finds_nothing() {
    assert_eq!(populate_cache("/dog.jpg"), None);
}

#[test]
fn cached_value_is_what_the_cache_holds() {
    assert_eq!(get_cached_value(Some(vec![1, 2]), "/a"), Some(vec![1, 2]));
    assert_eq!(get_cached_value(None, "/a"), None);
}

#[test]
fn get_content_found() {
    let r = get_content(&request("/dog.jpg"), Some(vec![9, 8, 7]));
    assert_eq!(r, Ok(CacheResponse { content: vec![9, 8, 7] }));
}

#[test]
fn get_content_not_found() {
    let e = get_content(&request("/dog.jpg"), None).unwrap_err();
    assert_eq!(e.code, RpcCode::NotFound);
    assert_eq!(e.message, "Cache item is not found");
}

#[test]
fn chunk_size_is_four_kibibytes() {
    assert_eq!(CHUNK_SIZE, 4 * 1024);
}

#[test]
fn stream_cuts_content_in_chunks() {
    let content: Vec<u8> = (0..10000u32).map(|i| (i % 251) as u8).collect();
    let pieces = content_stream(Some(content.clone()), "/big");
    let lens: Vec<usize> = pieces.iter().map(|p| p.content.len()).collect();
    assert_eq!(lens, vec![4096, 4096, 1808]);
    let joined: Vec<u8> = pieces.iter().flat_map(|p| p.content.clone()).collect();
    assert_eq!(joined, content);
}

#[test]
fn stream_of_exact_multiple() {
    let pieces = content_chunks(&vec![3u8; 8192]);
    assert_eq!(pieces.len(), 2);
    assert!(pieces.iter().all(|p| p.content == vec![3u8; 4096]));
}

#[test]
fn stream_of_small_content_is_one_piece() {
    let pieces = content_chunks(&vec![1, 2, 3]);
    assert_eq!(pieces, vec![CacheResponse { content: vec![1, 2, 3] }]);
}

#[test]
fn stream_of_empty_or_missing_content_is_empty() {
    assert!(content_stream(Some(Vec::new()), "/e").is_empty());
    assert!(content_stream(None, "/e").is_empty());
}

#[test]
fn routes_by_exact_path() {
    assert_eq!(route_for_path("/cache_server.CacheService/GetContent"), CacheRoute::GetContent);
    assert_eq!(route_for_path("/cache_server.CacheService/GetContentStream"), CacheRoute::GetContentStream);
    assert_eq!(route_for_path("/cache_server.CacheService/Other"), CacheRoute::Unimplemented);
    assert_eq!(route_for_path("/cache_server.CacheService/GetContent/"), CacheRoute::Unimplemented);
    assert_eq!(route_for_path(""), CacheRoute::Unimplemented);
}

#[test]
fn unimplemented_call_reply() {
    let r = unimplemented_reply();
    assert_eq!(r.status, 200);
    assert_eq!(
        r.headers,
        vec![
            (ReplyHeader::GrpcStatus, String::from("12")),
            (ReplyHeader::ContentType, String::from("application/grpc")),
        ]
    );
    assert!(r.body.is_empty());
}

#[test]
fn http_and_grpc_lookups_agree() {
    let stored = Some(b"abc".to_vec());
    let http = get_cache(String::from("/k"), stored.clone());
    let grpc = get_content(&request("/k"), stored).unwrap();
    assert_eq!(http.body, grpc.content);
    let http = get_cache(String::from("/k"), None);
    let grpc = get_content(&request("/k"), None);
    assert_eq!(http.status, 404);
    assert_eq!(grpc.unwrap_err().code, RpcCode::NotFound);
}
