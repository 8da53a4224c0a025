use kindle_button_mapper::waf::{
    actions_json, capture_device, capture_events, capture_timeout_reply, devices_json, capture_reply, capture_timeout, content_length, daemon_status, endpoint, esc,
    header_end, httpinspector_autostart_enabled, json_err, json_ok, koreader_status_json, layouts_json, log_tail,
    query_value, request_line, response, split_query, status_json, url_decode, Endpoint,
};
use kindle_button_mapper::koreader::encode;
use kindle_button_mapper::worker::EventKind;

#[test]
fn json_text_is_escaped() {
    assert_eq!(esc("a\"b\\c\nd\re\tf\u{1}g"), "a\\\"b\\\\c\\nd\\re\\tf\\u0001g");
    assert_eq!(esc("ç"), "ç");
    assert_eq!(json_ok(), "{\"ok\":true}");
    assert_eq!(json_err("not \"found\""), "{\"ok\":false,\"error\":\"not \\\"found\\\"\"}");
    assert_eq!(koreader_status_json(true), "{\"ok\":true,\"autostart\":true}");
}

#[test]
fn the_action_list_is_json() {
    let a = actions_json();
    assert!(a.starts_with("{\"ok\":true,\"actions\":[{\"id\":\"next_page\",\"label\":\"Next page\"},"));
    assert!(a.ends_with("{\"id\":\"rotate\",\"label\":\"Rotate screen\"}]}"));
    assert_eq!(a.matches("\"id\"").count(), 13);
}

#[test]
fn requests_route_by_method_and_path() {
    assert_eq!(endpoint("GET", "/"), Endpoint::Health);
    assert_eq!(endpoint("GET", "/health"), Endpoint::Health);
    assert_eq!(endpoint("GET", "/config"), Endpoint::ReadConfig);
    assert_eq!(endpoint("POST", "/config"), Endpoint::WriteConfig);
    assert_eq!(endpoint("POST", "/exit-app"), Endpoint::ExitApp);
    assert_eq!(endpoint("GET", "/capture"), Endpoint::Capture);
    assert_eq!(endpoint("GET", "/reload"), Endpoint::NotFound);
    assert_eq!(endpoint("DELETE", "/"), Endpoint::NotFound);
}

#[test]
fn queries_are_split_and_decoded() {
    assert_eq!(url_decode("a+b%20c%2Fd"), "a b c/d");
    assert_eq!(url_decode("%zz%41%+A"), "?A\u{a}");
    assert_eq!(url_decode("100%"), "100%");
    let (route, pairs) = split_query("/capture?device=%2Fdev%2Finput%2Fevent3&timeout=20000&&flag");
    assert_eq!(route, "/capture");
    assert_eq!(pairs.len(), 3);
    assert_eq!(query_value(&pairs, "device"), Some("/dev/input/event3".to_string()));
    assert_eq!(query_value(&pairs, "flag"), Some(String::new()));
    assert_eq!(capture_timeout(&pairs), 15000);
    assert_eq!(capture_device(&pairs), Some("/dev/input/event3".to_string()));
    let (route, pairs) = split_query("/status");
    assert_eq!(route, "/status");
    assert!(pairs.is_empty());
    assert_eq!(capture_timeout(&pairs), 8000);
    assert_eq!(capture_device(&pairs), None);
    let (_, pairs) = split_query("/capture?timeout=50&timeout=x&device=");
    assert_eq!(capture_timeout(&pairs), 8000);
    assert_eq!(capture_device(&pairs), None);
}

#[test]
fn a_capture_reports_presses_and_moved_axes() {
    assert_eq!(capture_reply(EventKind::Key(304), 1), Some("{\"ok\":true,\"kind\":\"key\",\"code\":304}".to_string()));
    assert_eq!(capture_reply(EventKind::Key(304), 0), None);
    assert_eq!(
        capture_reply(EventKind::Abs(17), -1),
        Some("{\"ok\":true,\"kind\":\"dpad\",\"code\":17,\"value\":-1}".to_string())
    );
    assert_eq!(
        capture_reply(EventKind::Abs(9), 1023),
        Some("{\"ok\":true,\"kind\":\"trigger\",\"code\":9,\"value\":1023}".to_string())
    );
    assert_eq!(capture_reply(EventKind::Abs(9), 0), None);
    assert_eq!(capture_reply(EventKind::Abs(0), 5), None);
    assert_eq!(capture_reply(EventKind::Sync, 1), None);
}

#[test]
fn responses_count_bytes() {
    assert_eq!(
        response(200, "ç"),
        "HTTP/1.1 200 OK\r\nContent-Type: application/json; charset=utf-8\r\nContent-Length: 2\r\nAccess-Control-Allow-Origin: *\r\nConnection: close\r\n\r\nç"
    );
    assert!(response(404, "").starts_with("HTTP/1.1 404 Not Found\r\n"));
    assert!(response(500, "").starts_with("HTTP/1.1 500 Internal Server Error\r\n"));
    assert!(response(418, "").starts_with("HTTP/1.1 418 Error\r\n"));
}

#[test]
fn request_heads_are_read() {
    assert_eq!(request_line("GET /status HTTP/1.1\r\n"), Some(("GET".to_string(), "/status".to_string())));
    assert_eq!(request_line("GET\r\n"), None);
    assert!(header_end("\r\n"));
    assert!(header_end(""));
    assert!(!header_end("Host: x\r\n"));
    assert_eq!(content_length("Content-Length: 12\r\n"), Some(12));
    assert_eq!(content_length("content-LENGTH:x\r\n"), Some(0));
    assert_eq!(content_length("Host: x\r\n"), None);
}

#[test]
fn autostart_is_read_from_the_inspector_table_only() {
    let on = "[\"httpinspector\"] = {\n    [\"autostart\"] = true,\n},";
    let off = "[\"httpinspector\"] = {\n    [\"autostart\"] = false,\n},\n[\"other\"] = { [\"autostart\"] = true }";
    assert!(httpinspector_autostart_enabled(on));
    assert!(!httpinspector_autostart_enabled(off));
    assert!(!httpinspector_autostart_enabled("[\"autostart\"] = true"));
}

#[test]
fn upstart_status_gives_the_pid() {
    assert_eq!(daemon_status("kindle-button-mapper start/running, process 1234\n"), (true, 1234));
    assert_eq!(daemon_status("kindle-button-mapper stop/waiting\n"), (false, 0));
    assert_eq!(daemon_status("x start/running"), (true, 0));
    assert_eq!(
        status_json(true, 12, "/mnt/us/c\"fg", "0.1.0", "dev"),
        "{\"ok\":true,\"running\":true,\"pid\":12,\"config\":\"/mnt/us/c\\\"fg\",\"version\":\"0.1.0\",\"build\":\"dev\"}"
    );
}

#[test]
fn layouts_come_from_the_layout_section() {
    let lst = "! model\n  pc105 Generic\n\n! layout\n  us              English (US)\n  fr   French\n  bare\n\n! variant\n  oss fr: French (alt.)\n";
    assert_eq!(
        layouts_json(lst),
        "{\"ok\":true,\"layouts\":[{\"code\":\"us\",\"name\":\"English (US)\"},{\"code\":\"fr\",\"name\":\"French\"},{\"code\":\"bare\",\"name\":\"\"}]}"
    );
    assert_eq!(layouts_json(""), "{\"ok\":true,\"layouts\":[]}");
}

#[test]
fn the_log_tail_keeps_the_last_lines() {
    assert_eq!(log_tail("a\nb\r\nc\n", 2), "b\nc");
    assert_eq!(log_tail("a\nb", 5), "a\nb");
    assert_eq!(log_tail("", 5), "");
}

#[test]
fn devices_are_listed_sorted_without_our_own_keyboard() {
    let nodes = vec![
        ("/dev/input/event3".to_string(), "Pad \"X\"".to_string(), "E4:17".to_string()),
        ("/dev/input/event1".to_string(), "kindle-button-mapper".to_string(), String::new()),
        ("/dev/input/event10".to_string(), "Keys".to_string(), String::new()),
        ("/dev/input/event0".to_string(), "Power".to_string(), String::new()),
    ];
    assert_eq!(
        devices_json(&nodes),
        "{\"ok\":true,\"devices\":[\
{\"path\":\"/dev/input/event0\",\"name\":\"Power\",\"uniq\":\"\"},\
{\"path\":\"/dev/input/event10\",\"name\":\"Keys\",\"uniq\":\"\"},\
{\"path\":\"/dev/input/event3\",\"name\":\"Pad \\\"X\\\"\",\"uniq\":\"E4:17\"}]}"
    );
    assert_eq!(devices_json(&Vec::new()), "{\"ok\":true,\"devices\":[]}");
}

#[test]
fn a_capture_reports_the_first_event_worth_it() {
    let batch = vec![
        (EventKind::Sync, 0),
        (EventKind::Key(304), 0),
        (EventKind::Abs(0), 128),
        (EventKind::Abs(16), -1),
        (EventKind::Key(305), 1),
    ];
    assert_eq!(
        capture_events(&batch).as_deref(),
        Some("{\"ok\":true,\"kind\":\"dpad\",\"code\":16,\"value\":-1}")
    );
    assert_eq!(capture_events(&vec![(EventKind::Key(304), 2), (EventKind::Abs(9), 0)]), None);
    assert_eq!(capture_events(&Vec::new()), None);
    assert_eq!(capture_timeout_reply(), "{\"ok\":false,\"error\":\"timeout\"}");
}

#[test]
fn url_decoding_undoes_percent_encoding() {
    for text in ["", "abc", "a b+c%d", "ç/ü?&=", "2", "\"'", "~._-"] {
        assert_eq!(url_decode(&encode(text)), text);
    }
}
