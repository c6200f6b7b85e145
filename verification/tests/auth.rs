use cache_server::auth::{grpc_access_finish, grpc_access_start, http_access_finish, http_access_start, GrpcAccess, HttpAccess};
use cache_server::rpc::RpcCode;

#[test]
fn grpc_without_authentication_allows() {
    assert_eq!(grpc_access_start(false, None), GrpcAccess::Allow);
    assert_eq!(grpc_access_start(false, Some(vec![0xff])), GrpcAccess::Allow);
}

#[test]
fn grpc_without_token_is_an_invalid_session() {
    match grpc_access_start(true, None) {
        GrpcAccess::Reject(s) => {
            assert_eq!(s.code, RpcCode::Unauthenticated);
            assert_eq!(s.message, "Invalid session");
        }
        other => panic!("unexpected {:?}", other),
    }
}

#[test]
fn grpc_token_not_utf8_is_an_invalid_session() {
    match grpc_access_start(true, Some(vec![0xc3, 0x28])) {
        GrpcAccess::Reject(s) => assert_eq!(s.message, "Invalid session"),
        other => panic!("unexpected {:?}", other),
    }
}

#[test]
fn grpc_token_is_checked() {
    assert_eq!(grpc_access_start(true, Some(b"abc".to_vec())), GrpcAccess::CheckSession(String::from("abc")));
    assert_eq!(
        grpc_access_start(true, Some("žito".as_bytes().to_vec())),
        GrpcAccess::CheckSession(String::from("žito"))
    );
}

#[test]
fn grpc_session_outcomes() {
    assert_eq!(grpc_access_finish(Some(true)), Ok(()));
    let e = grpc_access_finish(Some(false)).unwrap_err();
    assert_eq!(e.code, RpcCode::Unauthenticated);
    assert_eq!(e.message, "Invalid token");
    let e = grpc_access_finish(None).unwrap_err();
    assert_eq!(e.code, RpcCode::Unauthenticated);
    assert_eq!(e.message, "Invalid session");
}

#[test]
fn http_steps() {
    assert_eq!(http_access_start(false, None), HttpAccess::Allow);
    assert_eq!(http_access_start(true, None), HttpAccess::Reject);
    assert_eq!(http_access_start(true, Some(String::from("t"))), HttpAccess::CheckSession(String::from("t")));
    assert_eq!(http_access_finish(Some(true)), HttpAccess::Allow);
    assert_eq!(http_access_finish(Some(false)), HttpAccess::Reject);
    assert_eq!(http_access_finish(None), HttpAccess::Reject);
}
