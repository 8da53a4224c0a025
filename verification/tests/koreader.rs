use kindle_button_mapper::koreader::{accepted, encode, event_path, request, status_code, text_path};

#[test]
fn text_is_quoted_and_percent_encoded() {
    assert_eq!(text_path("ç"), "/koreader/event/TextInput/\"%C3%A7\"");
    // A digit unquoted would reach Event:new() as a number, not a string.
    assert_eq!(text_path("2"), "/koreader/event/TextInput/\"2\"");
    // Nothing escapes a quote inside a quoted arg, so the other one is used.
    assert_eq!(text_path("\""), "/koreader/event/TextInput/'%22'");
    assert_eq!(text_path("'"), "/koreader/event/TextInput/\"%27\"");
}

#[test]
fn unreserved_bytes_stay_and_others_are_escaped() {
    assert_eq!(encode("aZ9-._~"), "aZ9-._~");
    assert_eq!(encode("a b/€"), "a%20b%2F%E2%82%AC");
    assert_eq!(encode(""), "");
}

#[test]
fn requests_and_replies() {
    assert_eq!(event_path("GotoViewRel/1"), "/koreader/event/GotoViewRel/1");
    assert_eq!(
        request("/koreader/event/Menu"),
        "GET /koreader/event/Menu HTTP/1.1\r\nHost: 127.0.0.1:8080\r\nConnection: close\r\n\r\n"
    );
    assert_eq!(status_code(b"HTTP/1.1 200 OK\r\n"), Some(200));
    assert_eq!(status_code(b"HTTP/1.1 404 Not Found"), Some(404));
    assert_eq!(status_code(b"HTTP/1.1"), None);
    assert_eq!(status_code(b"HTTP/1.1 abc"), None);
    assert_eq!(status_code(&[0xff, 0x20, 0x32]), None);
    assert!(accepted(204));
    assert!(!accepted(300));
}
