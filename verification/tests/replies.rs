use cache_server::replies::{
    default_handler, get_cache, get_cache_key, header_key, requested_key, set_cache, set_cache_key, HttpReply,
    ReplyHeader,
};

fn h(name: ReplyHeader, value: &str) -> (ReplyHeader, String) {
    (name, value.to_string())
}

#[test]
fn header_names_on_the_wire() {
    assert_eq!(ReplyHeader::CacheServerKey.name(), "x-cache-server-key");
    assert_eq!(ReplyHeader::ContentLength.name(), "content-length");
    assert_eq!(ReplyHeader::GrpcStatus.name(), "grpc-status");
    assert_eq!(ReplyHeader::ContentType.name(), "content-type");
}

#[test]
fn header_key_names_the_key() {
    assert_eq!(header_key(String::from("k")), h(ReplyHeader::CacheServerKey, "k"));
}

#[test]
fn get_by_path_miss_is_404_naming_the_key() {
    let r = get_cache(String::from("dog"), None);
    assert_eq!(r, HttpReply { status: 404, headers: vec![h(ReplyHeader::CacheServerKey, "dog")], body: vec![] });
}

#[test]
fn get_by_path_hit_gives_content_and_length() {
    let r = get_cache(String::from("dog"), Some(vec![7u8; 1234]));
    assert_eq!(r.status, 200);
    assert_eq!(r.headers, vec![h(ReplyHeader::ContentLength, "1234")]);
    assert_eq!(r.body, vec![7u8; 1234]);
}

#[test]
fn get_by_path_hit_of_empty_content() {
    let r = get_cache(String::from("e"), Some(Vec::new()));
    assert_eq!(r, HttpReply { status: 200, headers: vec![h(ReplyHeader::ContentLength, "0")], body: vec![] });
}

#[test]
fn requested_key_needs_the_header() {
    assert_eq!(requested_key(Some(String::from("a"))), Ok(String::from("a")));
    let f = requested_key(None).unwrap_err();
    assert_eq!(f.status, 400);
    assert_eq!(f.message, "No key");
}

#[test]
fn get_by_header_hit_names_key_then_length() {
    let r = get_cache_key(String::from("cat"), Some(b"meow".to_vec()));
    assert_eq!(r.status, 200);
    assert_eq!(r.headers, vec![h(ReplyHeader::CacheServerKey, "cat"), h(ReplyHeader::ContentLength, "4")]);
    assert_eq!(r.body, b"meow".to_vec());
}

#[test]
fn get_by_header_miss_is_404() {
    let r = get_cache_key(String::from("cat"), None);
    assert_eq!(r, HttpReply { status: 404, headers: vec![h(ReplyHeader::CacheServerKey, "cat")], body: vec![] });
}

#[test]
fn set_by_path_success_and_failure() {
    let ok = set_cache_key(String::from("k"), Ok(())).unwrap();
    assert_eq!(ok, HttpReply { status: 200, headers: vec![h(ReplyHeader::CacheServerKey, "k")], body: vec![] });
    let err = set_cache_key(String::from("k"), Err(String::from("too large"))).unwrap_err();
    assert_eq!(err.status, 400);
    assert_eq!(err.message, "too large");
}

#[test]
fn set_by_header_success_and_failure() {
    let ok = set_cache(String::from("k"), Ok(())).unwrap();
    assert_eq!(ok, HttpReply { status: 200, headers: vec![h(ReplyHeader::CacheServerKey, "k")], body: vec![] });
    let err = set_cache(String::from("k"), Err(String::from("too large"))).unwrap_err();
    assert_eq!(err.status, 500);
    assert_eq!(err.message, "Unable to set key");
}

#[test]
fn default_handler_greets() {
    let r = default_handler();
    assert_eq!(r, HttpReply { status: 200, headers: vec![], body: b"zdravo, svete!".to_vec() });
}

#[test]
fn both_lookups_agree_on_status_and_body() {
    for stored in [None, Some(vec![1u8, 2, 3])] {
        let a = get_cache(String::from("x"), stored.clone());
        let b = get_cache_key(String::from("x"), stored);
        assert_eq!(a.status, b.status);
        assert_eq!(a.body, b.body);
    }
}
