use cache_server::text::{decimal_text, get_header};

#[test]
fn decimal_numbers() {
    assert_eq!(decimal_text(0), "0");
    assert_eq!(decimal_text(7), "7");
    assert_eq!(decimal_text(10), "10");
    assert_eq!(decimal_text(1337), "1337");
    assert_eq!(decimal_text(u64::MAX), u64::MAX.to_string());
}

#[test]
fn header_text_of_visible_ascii() {
    assert_eq!(get_header(Some(b"abc 123~")), Some(String::from("abc 123~")));
    assert_eq!(get_header(Some(b"a\tb")), Some(String::from("a\tb")));
    assert_eq!(get_header(Some(b"")), Some(String::new()));
}

#[test]
fn header_text_refuses_other_bytes() {
    assert_eq!(get_header(Some(b"a\x7fb")), None);
    assert_eq!(get_header(Some(b"a\x01b")), None);
    assert_eq!(get_header(Some(&[0xc5, 0xbe])), None);
}

#[test]
fn absent_header_has_no_text() {
    assert_eq!(get_header(None), None);
}
