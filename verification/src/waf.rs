//! The request handling of the helper that the on-device settings app talks
//! to over HTTP: routing, query strings, JSON replies, and reading the status
//! texts it reports on.

use vstd::prelude::*;
use vstd::utf8::{decode_utf8, encode_utf8, valid_utf8};
use crate::input::own_name;
use crate::koreader::{escape, hex_digit, percent, unreserved};
use crate::order::{sort_triples, triple_order, triple_view, triple_views, Triple, TripleOf};
use crate::text::{
    append, append_str, chars_of, contains_sub, decimal, decimal_of, find, find_char, find_sub, find_sub_of,
    has_prefix, is_ws, is_ws_char, join_lines, join_with, lines, lines_of, lower, lowered, parse_u64, parse_u64_of, rfind_sub,
    rfind_sub_of, same, signed_decimal, signed_decimal_of, slice, split, split_on, starts_with, string_of, tokens,
    tokens_of, trim, trimmed, views,
};

verus! {

/// A lower-case hex digit.
pub open spec fn hex_lower(n: u32) -> char {
    if n < 10 { (0x30 + n) as char } else { (0x61 + n - 10) as char }
}

/// One character inside a JSON string literal.
pub open spec fn esc_char(c: char) -> Seq<char> {
    if c == '"' {
        seq!['\\', '"']
    } else if c == '\\' {
        seq!['\\', '\\']
    } else if c == '\n' {
        seq!['\\', 'n']
    } else if c == '\r' {
        seq!['\\', 'r']
    } else if c == '\t' {
        seq!['\\', 't']
    } else if (c as u32) < 0x20 {
        seq!['\\', 'u', '0', '0', hex_lower((c as u32) / 16), hex_lower((c as u32) % 16)]
    } else {
        seq![c]
    }
}

/// Text escaped for a JSON string literal.
pub open spec fn esc_spec(s: Seq<char>) -> Seq<char>
    decreases s.len(),
{
    if s.len() == 0 { Seq::empty() } else { esc_spec(s.drop_last()) + esc_char(s.last()) }
}

fn hex_lower_of(n: u32) -> (r: char)
    requires
        n < 16,
    ensures
        r == hex_lower(n),
{
    if n < 10 { ((0x30 + n) as u8) as char } else { ((0x61 + n - 10) as u8) as char }
}

fn esc_push(out: &mut Vec<char>, c: char)
    ensures
        final(out)@ == old(out)@ + esc_char(c),
{
    let ghost before = out@;
    if c == '"' {
        out.push('\\');
        out.push('"');
    } else if c == '\\' {
        out.push('\\');
        out.push('\\');
    } else if c == '\n' {
        out.push('\\');
        out.push('n');
    } else if c == '\r' {
        out.push('\\');
        out.push('r');
    } else if c == '\t' {
        out.push('\\');
        out.push('t');
    } else if (c as u32) < 0x20 {
        out.push('\\');
        out.push('u');
        out.push('0');
        out.push('0');
        out.push(hex_lower_of((c as u32) / 16));
        out.push(hex_lower_of((c as u32) % 16));
    } else {
        out.push(c);
    }
    assert(out@ =~= before + esc_char(c));
}

fn esc_into(out: &mut Vec<char>, s: &Vec<char>)
    ensures
        final(out)@ == old(out)@ + esc_spec(s@),
{
    let ghost before = out@;
    let mut i: usize = 0;
    while i < s.len()
        invariant
            i <= s.len(),
            out@ == before + esc_spec(s@.take(i as int)),
        decreases s.len() - i,
    {
        assert(s@.take(i + 1).drop_last() == s@.take(i as int));
        esc_push(out, s[i]);
        i = i + 1;
    }
    assert(s@.take(s.len() as int) == s@);
}

pub fn esc(s: &str) -> (r: String)
    ensures
        r@ == esc_spec(s@),
{
    let mut out: Vec<char> = Vec::new();
    esc_into(&mut out, &chars_of(s));
    string_of(&out)
}

pub fn json_ok() -> (r: String)
    ensures
        r@ == "{\"ok\":true}"@,
{
    string_of(&chars_of("{\"ok\":true}"))
}

pub open spec fn json_err_spec(msg: Seq<char>) -> Seq<char> {
    "{\"ok\":false,\"error\":\""@ + esc_spec(msg) + "\"}"@
}

pub fn json_err(msg: &str) -> (r: String)
    ensures
        r@ == json_err_spec(msg@),
{
    let mut out = chars_of("{\"ok\":false,\"error\":\"");
    esc_into(&mut out, &chars_of(msg));
    append_str(&mut out, "\"}");
    string_of(&out)
}

/// The actions the settings app offers, by id and label.
pub open spec fn actions() -> Seq<(&'static str, &'static str)> {
    seq![
        ("next_page", "Next page"),
        ("prev_page", "Previous page"),
        ("brightness 1", "Brightness +1"),
        ("brightness -1", "Brightness -1"),
        ("brightness 10", "Brightness +10"),
        ("brightness -10", "Brightness -10"),
        ("brightness_toggle", "Toggle frontlight"),
        ("night_mode", "Toggle night mode"),
        ("font_up 1", "Font +1"),
        ("font_down 1", "Font -1"),
        ("menu", "Show menu"),
        ("toggle_status_bar", "Toggle status bar"),
        ("rotate", "Rotate screen"),
    ]
}

fn action_table() -> (t: Vec<(&'static str, &'static str)>)
    ensures
        t@ == actions(),
{
    let mut t: Vec<(&'static str, &'static str)> = Vec::new();
    t.push(("next_page", "Next page"));
    t.push(("prev_page", "Previous page"));
    t.push(("brightness 1", "Brightness +1"));
    t.push(("brightness -1", "Brightness -1"));
    t.push(("brightness 10", "Brightness +10"));
    t.push(("brightness -10", "Brightness -10"));
    t.push(("brightness_toggle", "Toggle frontlight"));
    t.push(("night_mode", "Toggle night mode"));
    t.push(("font_up 1", "Font +1"));
    t.push(("font_down 1", "Font -1"));
    t.push(("menu", "Show menu"));
    t.push(("toggle_status_bar", "Toggle status bar"));
    t.push(("rotate", "Rotate screen"));
    t
}

/// `{"id":...,"label":...}` for one action.
pub open spec fn action_item(a: (&'static str, &'static str)) -> Seq<char> {
    "{\"id\":\""@ + esc_spec(a.0@) + "\",\"label\":\""@ + esc_spec(a.1@) + "\"}"@
}

/// Items joined by commas.
pub open spec fn joined(items: Seq<Seq<char>>) -> Seq<char>
    decreases items.len(),
{
    if items.len() == 0 {
        Seq::empty()
    } else if items.len() == 1 {
        items[0]
    } else {
        joined(items.drop_last()) + ","@ + items.last()
    }
}

pub open spec fn actions_json_spec() -> Seq<char> {
    "{\"ok\":true,\"actions\":["@ + joined(actions().map_values(|a: (&'static str, &'static str)| action_item(a))) + "]}"@
}

pub fn actions_json() -> (r: String)
    ensures
        r@ == actions_json_spec(),
{
    let t = action_table();
    let ghost items = actions().map_values(|a: (&'static str, &'static str)| action_item(a));
    let mut body: Vec<char> = Vec::new();
    let mut i: usize = 0;
    while i < t.len()
        invariant
            i <= t.len(),
            t@ == actions(),
            items == actions().map_values(|a: (&'static str, &'static str)| action_item(a)),
            body@ == joined(items.take(i as int)),
        decreases t.len() - i,
    {
        assert(items.take(i + 1).drop_last() == items.take(i as int));
        if i > 0 {
            append_str(&mut body, ",");
        }
        let ghost before = body@;
        append_str(&mut body, "{\"id\":\"");
        esc_into(&mut body, &chars_of(t[i].0));
        append_str(&mut body, "\",\"label\":\"");
        esc_into(&mut body, &chars_of(t[i].1));
        append_str(&mut body, "\"}");
        assert(body@ =~= before + action_item(t@[i as int]));
        if i == 0 {
            assert(items.take(1) =~= seq![items[0]]);
        }
        i = i + 1;
    }
    assert(items.take(t.len() as int) == items);
    let mut out = chars_of("{\"ok\":true,\"actions\":[");
    append(&mut out, &body);
    append_str(&mut out, "]}");
    string_of(&out)
}

/// Whether `v` holds exactly the text of `lit`.
fn is(v: &Vec<char>, lit: &str) -> (r: bool)
    ensures
        r == (v@ == lit@),
{
    same(v, &chars_of(lit))
}

/// What a request asks for.
#[derive(PartialEq, Eq, Debug, Clone, Copy, Structural)]
pub enum Endpoint {
    Health,
    Status,
    KoreaderStatus,
    Logs,
    ReadConfig,
    WriteConfig,
    Devices,
    Actions,
    Layouts,
    Capture,
    Reload,
    Stop,
    Start,
    Quit,
    ExitApp,
    NotFound,
}

pub open spec fn endpoint_spec(method: Seq<char>, route: Seq<char>) -> Endpoint {
    if method == "GET"@ && (route == "/"@ || route == "/health"@) {
        Endpoint::Health
    } else if method == "GET"@ && route == "/status"@ {
        Endpoint::Status
    } else if method == "GET"@ && route == "/koreader/status"@ {
        Endpoint::KoreaderStatus
    } else if method == "GET"@ && route == "/logs"@ {
        Endpoint::Logs
    } else if method == "GET"@ && route == "/config"@ {
        Endpoint::ReadConfig
    } else if method == "POST"@ && route == "/config"@ {
        Endpoint::WriteConfig
    } else if method == "GET"@ && route == "/devices"@ {
        Endpoint::Devices
    } else if method == "GET"@ && route == "/actions"@ {
        Endpoint::Actions
    } else if method == "GET"@ && route == "/layouts"@ {
        Endpoint::Layouts
    } else if method == "GET"@ && route == "/capture"@ {
        Endpoint::Capture
    } else if method == "POST"@ && route == "/reload"@ {
        Endpoint::Reload
    } else if method == "POST"@ && route == "/stop"@ {
        Endpoint::Stop
    } else if method == "POST"@ && route == "/start"@ {
        Endpoint::Start
    } else if method == "POST"@ && route == "/quit"@ {
        Endpoint::Quit
    } else if method == "POST"@ && route == "/exit-app"@ {
        Endpoint::ExitApp
    } else {
        Endpoint::NotFound
    }
}

/// Which handler a request goes to, by method and route (the path before
/// any `?`).
pub fn endpoint(method: &str, route: &str) -> (r: Endpoint)
    ensures
        r == endpoint_spec(method@, route@),
{
    let m = chars_of(method);
    let p = chars_of(route);
    let get = is(&m, "GET");
    let post = is(&m, "POST");
    if get && (is(&p, "/") || is(&p, "/health")) {
        Endpoint::Health
    } else if get && is(&p, "/status") {
        Endpoint::Status
    } else if get && is(&p, "/koreader/status") {
        Endpoint::KoreaderStatus
    } else if get && is(&p, "/logs") {
        Endpoint::Logs
    } else if get && is(&p, "/config") {
        Endpoint::ReadConfig
    } else if post && is(&p, "/config") {
        Endpoint::WriteConfig
    } else if get && is(&p, "/devices") {
        Endpoint::Devices
    } else if get && is(&p, "/actions") {
        Endpoint::Actions
    } else if get && is(&p, "/layouts") {
        Endpoint::Layouts
    } else if get && is(&p, "/capture") {
        Endpoint::Capture
    } else if post && is(&p, "/reload") {
        Endpoint::Reload
    } else if post && is(&p, "/stop") {
        Endpoint::Stop
    } else if post && is(&p, "/start") {
        Endpoint::Start
    } else if post && is(&p, "/quit") {
        Endpoint::Quit
    } else if post && is(&p, "/exit-app") {
        Endpoint::ExitApp
    } else {
        Endpoint::NotFound
    }
}

} // verus!

verus! {

/// The text std's `String::from_utf8_lossy` makes of a byte string.
pub uninterp spec fn lossy_utf8(b: Seq<u8>) -> Seq<char>;

/// std's `String::from_utf8_lossy`. Claims what its documentation says of
/// valid input: UTF-8 bytes decode to the text they encode. What replaces
/// invalid sequences is left unsaid, beyond being a function of the bytes.
#[verifier::external_body]
fn from_utf8_lossy(b: &Vec<u8>) -> (r: String)
    ensures
        r@ == lossy_utf8(b@),
        valid_utf8(b@) ==> r@ == decode_utf8(b@),
{
    String::from_utf8_lossy(b.as_slice()).into_owned()
}

/// A hex digit's value.
pub open spec fn hex_val(c: u8) -> Option<u8> {
    if 0x30 <= c <= 0x39 {
        Some((c - 0x30) as u8)
    } else if 0x61 <= c <= 0x66 {
        Some((c - 0x61 + 10) as u8)
    } else if 0x41 <= c <= 0x46 {
        Some((c - 0x41 + 10) as u8)
    } else {
        None
    }
}

/// The byte `%XY` stands for. The two bytes are read as text and parsed as
/// hex (`u8::from_str_radix`, which takes a leading `+`); text that is no
/// hex number gives `?`, and bytes that are not text at all read as `00`.
pub open spec fn pct_byte(b1: u8, b2: u8) -> u8 {
    if b1 < 0x80 && b2 < 0x80 {
        if b1 == 0x2b {
            match hex_val(b2) {
                Some(v) => v,
                None => 0x3f,
            }
        } else {
            match (hex_val(b1), hex_val(b2)) {
                (Some(h), Some(l)) => (h * 16 + l) as u8,
                _ => 0x3f,
            }
        }
    } else if 0xc2 <= b1 <= 0xdf && 0x80 <= b2 <= 0xbf {
        0x3f
    } else {
        0
    }
}

/// URL decoding of a byte string: `+` is a space and `%XY` a byte when two
/// bytes follow the `%`; anything else stands for itself.
pub open spec fn url_bytes(bs: Seq<u8>) -> Seq<u8>
    decreases bs.len(),
{
    if bs.len() == 0 {
        Seq::empty()
    } else if bs[0] == 0x2b {
        seq![0x20u8] + url_bytes(bs.drop_first())
    } else if bs[0] == 0x25 && 2 < bs.len() {
        seq![pct_byte(bs[1], bs[2])] + url_bytes(bs.skip(3))
    } else {
        seq![bs[0]] + url_bytes(bs.drop_first())
    }
}

pub open spec fn url_decode_spec(s: Seq<char>) -> Seq<char> {
    lossy_utf8(url_bytes(encode_utf8(s)))
}

fn hex_val_of(c: u8) -> (r: Option<u8>)
    ensures
        r == hex_val(c),
{
    if 0x30 <= c && c <= 0x39 {
        Some(c - 0x30)
    } else if 0x61 <= c && c <= 0x66 {
        Some(c - 0x61 + 10)
    } else if 0x41 <= c && c <= 0x46 {
        Some(c - 0x41 + 10)
    } else {
        None
    }
}

fn pct_byte_of(b1: u8, b2: u8) -> (r: u8)
    ensures
        r == pct_byte(b1, b2),
{
    if b1 < 0x80 && b2 < 0x80 {
        if b1 == 0x2b {
            match hex_val_of(b2) {
                Some(v) => v,
                None => 0x3f,
            }
        } else {
            match (hex_val_of(b1), hex_val_of(b2)) {
                (Some(h), Some(l)) => h * 16 + l,
                _ => 0x3f,
            }
        }
    } else if 0xc2 <= b1 && b1 <= 0xdf && 0x80 <= b2 && b2 <= 0xbf {
        0x3f
    } else {
        0
    }
}

pub fn url_decode(s: &str) -> (r: String)
    ensures
        r@ == url_decode_spec(s@),
        valid_utf8(url_bytes(encode_utf8(s@))) ==> r@ == decode_utf8(url_bytes(encode_utf8(s@))),
{
    let bytes = s.as_bytes();
    let mut out: Vec<u8> = Vec::new();
    let mut i: usize = 0;
    assert(bytes@.skip(0) == bytes@);
    while i < bytes.len()
        invariant
            i <= bytes@.len(),
            bytes@ == encode_utf8(s@),
            url_bytes(bytes@) == out@ + url_bytes(bytes@.skip(i as int)),
        decreases bytes@.len() - i,
    {
        let ghost rest = bytes@.skip(i as int);
        if bytes[i] == 0x2b {
            assert(rest.drop_first() == bytes@.skip(i + 1));
            out.push(0x20);
            i = i + 1;
        } else if bytes[i] == 0x25 && 2 < bytes.len() - i {
            assert(rest.skip(3) == bytes@.skip(i + 3));
            out.push(pct_byte_of(bytes[i + 1], bytes[i + 2]));
            i = i + 3;
        } else {
            assert(rest.drop_first() == bytes@.skip(i + 1));
            out.push(bytes[i]);
            i = i + 1;
        }
    }
    assert(out@ + Seq::<u8>::empty() == out@);
    from_utf8_lossy(&out)
}

} // verus!

verus! {

/// One `key=value` piece of a query, both URL-decoded; a piece without `=`
/// has an empty value.
pub open spec fn query_pair(p: Seq<char>) -> (Seq<char>, Seq<char>) {
    match find(p, '=') {
        None => (url_decode_spec(p), url_decode_spec(Seq::empty())),
        Some(i) => (url_decode_spec(p.take(i)), url_decode_spec(p.skip(i + 1))),
    }
}

/// The pairs of a query string, in order, empty pieces skipped.
pub open spec fn query_pairs(q: Seq<char>) -> Seq<(Seq<char>, Seq<char>)> {
    split(q, '&').filter(|p: Seq<char>| p.len() > 0).map_values(|p: Seq<char>| query_pair(p))
}

/// The route (the path before any `?`) and the text after the `?`.
pub open spec fn route_and_query(path: Seq<char>) -> (Seq<char>, Seq<char>) {
    match find(path, '?') {
        None => (path, Seq::empty()),
        Some(i) => (path.take(i), path.skip(i + 1)),
    }
}

/// A path's route and its query pairs. A key given twice keeps its last
/// value (see `query_value`).
pub fn split_query(path: &str) -> (r: (String, Vec<(String, String)>))
    ensures
        r.0@ == route_and_query(path@).0,
        r.1@.map_values(|kv: (String, String)| (kv.0@, kv.1@)) == query_pairs(route_and_query(path@).1),
{
    let p = chars_of(path);
    let (route, q) = match find_char(&p, '?') {
        Some(i) => (slice(&p, 0, i), slice(&p, i + 1, p.len())),
        None => (slice(&p, 0, p.len()), Vec::new()),
    };
    assert(q@ == route_and_query(path@).1);
    let pieces = split_on(&q, '&');
    let ghost kept = split(q@, '&').filter(|x: Seq<char>| x.len() > 0);
    let mut pairs: Vec<(String, String)> = Vec::new();
    let mut i: usize = 0;
    while i < pieces.len()
        invariant
            i <= pieces.len(),
            views(pieces@) == split(q@, '&'),
            pairs@.map_values(|kv: (String, String)| (kv.0@, kv.1@)) == split(q@, '&').take(i as int).filter(
                |x: Seq<char>| x.len() > 0,
            ).map_values(|x: Seq<char>| query_pair(x)),
        decreases pieces.len() - i,
    {
        proof {
            reveal_with_fuel(Seq::filter, 1);
        }
        let ghost all = split(q@, '&');
        assert(all.take(i + 1).drop_last() == all.take(i as int));
        assert(all.take(i + 1).last() == pieces@[i as int]@);
        let piece = &pieces[i];
        if piece.len() > 0 {
            let ghost before = pairs@;
            let (k, v) = match find_char(piece, '=') {
                None => (url_decode(string_of(piece).as_str()), url_decode("")),
                Some(j) => (
                    url_decode(string_of(&slice(piece, 0, j)).as_str()),
                    url_decode(string_of(&slice(piece, j + 1, piece.len())).as_str()),
                ),
            };
            proof {
                reveal_strlit("");
            }
            assert((k@, v@) == query_pair(piece@));
            pairs.push((k, v));
            assert(pairs@.map_values(|kv: (String, String)| (kv.0@, kv.1@)) =~= before.map_values(
                |kv: (String, String)| (kv.0@, kv.1@),
            ).push(query_pair(piece@)));
        }
        i = i + 1;
    }
    assert(split(q@, '&').take(pieces.len() as int) == split(q@, '&'));
    (string_of(&route), pairs)
}

/// The value the last pair with key `key` gives.
pub open spec fn query_value_spec(pairs: Seq<(Seq<char>, Seq<char>)>, key: Seq<char>) -> Option<Seq<char>>
    decreases pairs.len(),
{
    if pairs.len() == 0 {
        None
    } else if pairs.last().0 == key {
        Some(pairs.last().1)
    } else {
        query_value_spec(pairs.drop_last(), key)
    }
}

pub fn query_value(pairs: &Vec<(String, String)>, key: &str) -> (r: Option<String>)
    ensures
        match r {
            Some(v) => query_value_spec(pairs@.map_values(|kv: (String, String)| (kv.0@, kv.1@)), key@) == Some(v@),
            None => query_value_spec(pairs@.map_values(|kv: (String, String)| (kv.0@, kv.1@)), key@) is None,
        },
{
    let ghost ps = pairs@.map_values(|kv: (String, String)| (kv.0@, kv.1@));
    let want = chars_of(key);
    let mut i: usize = pairs.len();
    assert(ps.take(pairs.len() as int) == ps);
    while i > 0
        invariant
            i <= pairs.len(),
            want@ == key@,
            ps == pairs@.map_values(|kv: (String, String)| (kv.0@, kv.1@)),
            query_value_spec(ps, key@) == query_value_spec(ps.take(i as int), key@),
        decreases i,
    {
        assert(ps.take(i as int).drop_last() == ps.take(i - 1));
        assert(ps.take(i as int).last() == ps[i - 1]);
        if same(&chars_of(pairs[i - 1].0.as_str()), &want) {
            return Some(pairs[i - 1].1.clone());
        }
        i = i - 1;
    }
    None
}

} // verus!

verus! {

/// How long a capture waits, in milliseconds: the `timeout` parameter when
/// it is a number, 8000 otherwise, at most 15000 to stay within the pause
/// flag's freshness window.
pub open spec fn capture_timeout_spec(pairs: Seq<(Seq<char>, Seq<char>)>) -> u64 {
    let t = match query_value_spec(pairs, "timeout"@) {
        Some(v) => match parse_u64(v) {
            Some(n) => n,
            None => 8000,
        },
        None => 8000,
    };
    if t < 15000 { t } else { 15000 }
}

pub fn capture_timeout(pairs: &Vec<(String, String)>) -> (r: u64)
    ensures
        r == capture_timeout_spec(pairs@.map_values(|kv: (String, String)| (kv.0@, kv.1@))),
{
    let t: u64 = match query_value(pairs, "timeout") {
        Some(v) => match parse_u64_of(&chars_of(v.as_str())) {
            Some(n) => n,
            None => 8000,
        },
        None => 8000,
    };
    if t < 15000 { t } else { 15000 }
}

/// The device a capture reads: the `device` parameter, when not empty.
pub fn capture_device(pairs: &Vec<(String, String)>) -> (r: Option<String>)
    ensures
        match r {
            Some(d) => d@.len() > 0 && query_value_spec(pairs@.map_values(|kv: (String, String)| (kv.0@, kv.1@)), "device"@) == Some(d@),
            None => match query_value_spec(pairs@.map_values(|kv: (String, String)| (kv.0@, kv.1@)), "device"@) {
                Some(d) => d.len() == 0,
                None => true,
            },
        },
{
    match query_value(pairs, "device") {
        Some(d) => if chars_of(d.as_str()).len() > 0 { Some(d) } else { None },
        None => None,
    }
}

/// The reply to the first event worth reporting during a capture: a key
/// press, or a D-pad or trigger axis leaving zero. Other events are skipped.
pub open spec fn capture_reply_spec(kind: crate::worker::EventKind, value: i32) -> Option<Seq<char>> {
    match kind {
        crate::worker::EventKind::Key(k) => if value == 1 {
            Some("{\"ok\":true,\"kind\":\"key\",\"code\":"@ + decimal(k as nat) + "}"@)
        } else {
            None
        },
        crate::worker::EventKind::Abs(c) => if value != 0 && (c == 16 || c == 17 || c == 9 || c == 10) {
            Some("{\"ok\":true,\"kind\":\""@ + (if c == 16 || c == 17 { "dpad"@ } else { "trigger"@ }) + "\",\"code\":"@
                + decimal(c as nat) + ",\"value\":"@ + signed_decimal(value as int) + "}"@)
        } else {
            None
        },
        _ => None,
    }
}

pub fn capture_reply(kind: crate::worker::EventKind, value: i32) -> (r: Option<String>)
    ensures
        match r {
            Some(t) => capture_reply_spec(kind, value) == Some(t@),
            None => capture_reply_spec(kind, value) is None,
        },
{
    match kind {
        crate::worker::EventKind::Key(k) => {
            if value != 1 {
                return None;
            }
            let mut out = chars_of("{\"ok\":true,\"kind\":\"key\",\"code\":");
            append(&mut out, &decimal_of(k as u64));
            append_str(&mut out, "}");
            Some(string_of(&out))
        },
        crate::worker::EventKind::Abs(c) => {
            if value == 0 || !(c == 16 || c == 17 || c == 9 || c == 10) {
                return None;
            }
            let mut out = chars_of("{\"ok\":true,\"kind\":\"");
            if c == 16 || c == 17 {
                append_str(&mut out, "dpad");
            } else {
                append_str(&mut out, "trigger");
            }
            append_str(&mut out, "\",\"code\":");
            append(&mut out, &decimal_of(c as u64));
            append_str(&mut out, ",\"value\":");
            append(&mut out, &signed_decimal_of(value as i64));
            append_str(&mut out, "}");
            Some(string_of(&out))
        },
        _ => None,
    }
}

/// The reason phrase of the statuses the helper answers with.
pub open spec fn reason(status: u16) -> Seq<char> {
    if status == 200 {
        "OK"@
    } else if status == 404 {
        "Not Found"@
    } else if status == 500 {
        "Internal Server Error"@
    } else {
        "Error"@
    }
}

/// A complete HTTP response carrying `body` as JSON; the length counts the
/// body's UTF-8 bytes.
pub open spec fn response_spec(status: u16, body: Seq<char>) -> Seq<char> {
    "HTTP/1.1 "@ + decimal(status as nat) + " "@ + reason(status)
        + "\r\nContent-Type: application/json; charset=utf-8\r\nContent-Length: "@ + decimal(
        encode_utf8(body).len(),
    ) + "\r\nAccess-Control-Allow-Origin: *\r\nConnection: close\r\n\r\n"@ + body
}

pub fn response(status: u16, body: &str) -> (r: String)
    ensures
        r@ == response_spec(status, body@),
{
    let mut out = chars_of("HTTP/1.1 ");
    append(&mut out, &decimal_of(status as u64));
    append_str(&mut out, " ");
    if status == 200 {
        append_str(&mut out, "OK");
    } else if status == 404 {
        append_str(&mut out, "Not Found");
    } else if status == 500 {
        append_str(&mut out, "Internal Server Error");
    } else {
        append_str(&mut out, "Error");
    }
    append_str(&mut out, "\r\nContent-Type: application/json; charset=utf-8\r\nContent-Length: ");
    let n = body.as_bytes().len();
    append(&mut out, &decimal_of(n as u64));
    append_str(&mut out, "\r\nAccess-Control-Allow-Origin: *\r\nConnection: close\r\n\r\n");
    append_str(&mut out, body);
    string_of(&out)
}

/// Whether KOReader's settings turn the HTTP Inspector's autostart on: the
/// text after the first `["httpinspector"]`, up to the next `}`, holds
/// `["autostart"] = true`.
pub open spec fn autostart_spec(lua: Seq<char>) -> bool {
    match find_sub(lua, "[\"httpinspector\"]"@) {
        None => false,
        Some(i) => {
            let rest = lua.skip(i + "[\"httpinspector\"]"@.len());
            match find(rest, '}') {
                None => false,
                Some(j) => contains_sub(rest.take(j), "[\"autostart\"] = true"@),
            }
        },
    }
}

pub fn httpinspector_autostart_enabled(lua: &str) -> (r: bool)
    ensures
        r == autostart_spec(lua@),
{
    let l = chars_of(lua);
    let marker = chars_of("[\"httpinspector\"]");
    let found = find_sub_of(&l, &marker);
    if found.is_none() {
        return false;
    }
    let i = found.unwrap();
    let ml = marker.len();
    let ll = l.len();
    assert(i + ml <= ll);
    let rest = slice(&l, i + ml, ll);
    match find_char(&rest, '}') {
        None => false,
        Some(j) => {
            let table = slice(&rest, 0, j);
            find_sub_of(&table, &chars_of("[\"autostart\"] = true")).is_some()
        },
    }
}

/// The `/status` reply.
pub open spec fn status_json_spec(running: bool, pid: u32, config: Seq<char>, version: Seq<char>, build: Seq<char>) -> Seq<char> {
    "{\"ok\":true,\"running\":"@ + (if running { "true"@ } else { "false"@ }) + ",\"pid\":"@ + decimal(pid as nat)
        + ",\"config\":\""@ + esc_spec(config) + "\",\"version\":\""@ + version + "\",\"build\":\""@ + build + "\"}"@
}

pub fn status_json(running: bool, pid: u32, config_path: &str, version: &str, build: &str) -> (r: String)
    ensures
        r@ == status_json_spec(running, pid, config_path@, version@, build@),
{
    let mut out = chars_of("{\"ok\":true,\"running\":");
    if running {
        append_str(&mut out, "true");
    } else {
        append_str(&mut out, "false");
    }
    append_str(&mut out, ",\"pid\":");
    append(&mut out, &decimal_of(pid as u64));
    append_str(&mut out, ",\"config\":\"");
    esc_into(&mut out, &chars_of(config_path));
    append_str(&mut out, "\",\"version\":\"");
    append_str(&mut out, version);
    append_str(&mut out, "\",\"build\":\"");
    append_str(&mut out, build);
    append_str(&mut out, "\"}");
    string_of(&out)
}

/// The `/koreader/status` reply.
pub fn koreader_status_json(autostart: bool) -> (r: String)
    ensures
        r@ == "{\"ok\":true,\"autostart\":"@ + (if autostart { "true"@ } else { "false"@ }) + "}"@,
{
    let mut out = chars_of("{\"ok\":true,\"autostart\":");
    if autostart {
        append_str(&mut out, "true");
    } else {
        append_str(&mut out, "false");
    }
    append_str(&mut out, "}");
    string_of(&out)
}

} // verus!

verus! {

/// The method and path of an HTTP request line: its first two
/// whitespace-separated words.
pub fn request_line(line: &str) -> (r: Option<(String, String)>)
    ensures
        match r {
            Some((m, p)) => tokens(line@).len() >= 2 && m@ == tokens(line@)[0] && p@ == tokens(line@)[1],
            None => tokens(line@).len() < 2,
        },
{
    let toks = tokens_of(&chars_of(line));
    if toks.len() < 2 {
        return None;
    }
    Some((string_of(&toks[0]), string_of(&toks[1])))
}

/// The blank line (or end of input) that ends the headers.
pub fn header_end(h: &str) -> (r: bool)
    ensures
        r == (h@ == "\r\n"@ || h@ == "\n"@ || h@.len() == 0),
{
    let v = chars_of(h);
    is(&v, "\r\n") || is(&v, "\n") || v.len() == 0
}

/// `usize::from_str`.
pub open spec fn parse_usize(s: Seq<char>) -> Option<usize> {
    match parse_u64(s) {
        Some(n) => if n <= usize::MAX { Some(n as usize) } else { None },
        None => None,
    }
}

/// What a header line says of the body's length: a `Content-Length`
/// header (any case) sets it to its value, or to 0 when that is no number;
/// other headers say nothing.
pub open spec fn content_length_spec(h: Seq<char>) -> Option<usize> {
    let low = h.map_values(|c: char| lower(c));
    if starts_with(low, "content-length:"@) {
        Some(
            match parse_usize(trim(low.skip("content-length:"@.len() as int))) {
                Some(n) => n,
                None => 0,
            },
        )
    } else {
        None
    }
}

pub fn content_length(h: &str) -> (r: Option<usize>)
    ensures
        r == content_length_spec(h@),
{
    let low = lowered(&chars_of(h));
    let key = chars_of("content-length:");
    if !has_prefix(&low, &key) {
        return None;
    }
    let rest = trimmed(&slice(&low, key.len(), low.len()));
    let n: usize = match parse_u64_of(&rest) {
        Some(n) => if n <= usize::MAX as u64 { n as usize } else { 0 },
        None => 0,
    };
    Some(n)
}

/// What upstart's `initctl status` says of the daemon: running, and the
/// pid after the last `process ` (0 when there is none).
pub open spec fn daemon_status_spec(text: Seq<char>) -> (bool, u32) {
    if !contains_sub(text, "start/running"@) {
        (false, 0)
    } else {
        let tail = match rfind_sub(text, "process "@) {
            Some(i) => text.skip(i + "process "@.len()),
            None => text,
        };
        let pid = if tokens(tail).len() > 0 {
            match parse_u64(tokens(tail)[0]) {
                Some(n) => if n <= u32::MAX { n as u32 } else { 0 },
                None => 0,
            }
        } else {
            0
        };
        (true, pid)
    }
}

pub fn daemon_status(text: &str) -> (r: (bool, u32))
    ensures
        r == daemon_status_spec(text@),
{
    let t = chars_of(text);
    if find_sub_of(&t, &chars_of("start/running")).is_none() {
        return (false, 0);
    }
    let marker = chars_of("process ");
    let tail = match rfind_sub_of(&t, &marker) {
        Some(i) => {
            let ml = marker.len();
            let tl = t.len();
            assert(i + ml <= tl);
            let x = slice(&t, i + ml, tl);
            assert(x@ == text@.skip(i + "process "@.len()));
            x
        },
        None => {
            let x = slice(&t, 0, t.len());
            assert(x@ == text@);
            x
        },
    };
    assert(tail@ == match rfind_sub(text@, "process "@) {
        Some(i) => text@.skip(i + "process "@.len()),
        None => text@,
    });
    let toks = tokens_of(&tail);
    let pid: u32 = if toks.len() > 0 {
        match parse_u64_of(&toks[0]) {
            Some(n) => if n <= u32::MAX as u64 { n as u32 } else { 0 },
            None => 0,
        }
    } else {
        0
    };
    (true, pid)
}

/// The last `n` lines of a log, joined by newlines.
pub open spec fn tail_spec(s: Seq<char>, n: nat) -> Seq<char> {
    let ls = lines_of(s);
    join_with(ls.skip(if ls.len() > n { ls.len() - n } else { 0 }), "\n"@)
}

pub fn log_tail(s: &str, n: usize) -> (r: String)
    ensures
        r@ == tail_spec(s@, n as nat),
{
    let ls = lines(&chars_of(s));
    let start = if ls.len() > n { ls.len() - n } else { 0 };
    string_of(&join_lines(&ls, start, &chars_of("\n")))
}

} // verus!

verus! {

/// `i` is the first whitespace position in `s`.
pub open spec fn first_ws_at(s: Seq<char>, i: int) -> bool {
    &&& 0 <= i < s.len()
    &&& is_ws(s[i])
    &&& forall|k: int| 0 <= k < i ==> !is_ws(#[trigger] s[k])
}

/// A layout line's code (its first word) and name (the rest), both trimmed.
pub open spec fn layout_entry(h: Seq<char>) -> (Seq<char>, Seq<char>) {
    if exists|i: int| first_ws_at(h, i) {
        let i = choose|i: int| first_ws_at(h, i);
        (trim(h.take(i)), trim(h.skip(i + 1)))
    } else {
        (trim(h), Seq::empty())
    }
}

pub open spec fn layout_item(code: Seq<char>, name: Seq<char>) -> Seq<char> {
    "{\"code\":\""@ + esc_spec(code) + "\",\"name\":\""@ + esc_spec(name) + "\"}"@
}

/// The scan of `evdev.lst` so far: whether it is in the `! layout` section,
/// and the items found.
pub struct LayoutScan {
    pub in_section: bool,
    pub items: Seq<Seq<char>>,
}

pub open spec fn layouts_step(st: LayoutScan, line: Seq<char>) -> LayoutScan {
    let h = trim(line);
    if h.len() > 0 && h[0] == '!' {
        LayoutScan { in_section: h == "! layout"@, items: st.items }
    } else if !st.in_section || h.len() == 0 {
        st
    } else {
        let (code, name) = layout_entry(h);
        if code.len() == 0 { st } else { LayoutScan { in_section: true, items: st.items.push(layout_item(code, name)) } }
    }
}

pub open spec fn layouts_scan(ls: Seq<Seq<char>>) -> LayoutScan
    decreases ls.len(),
{
    if ls.len() == 0 {
        LayoutScan { in_section: false, items: Seq::empty() }
    } else {
        layouts_step(layouts_scan(ls.drop_last()), ls.last())
    }
}

/// The `/layouts` reply: every entry of the `! layout` section of an XKB
/// rules listing.
pub open spec fn layouts_json_spec(content: Seq<char>) -> Seq<char> {
    "{\"ok\":true,\"layouts\":["@ + joined(layouts_scan(lines_of(content)).items) + "]}"@
}

fn layout_entry_of(h: &Vec<char>) -> (r: (Vec<char>, Vec<char>))
    ensures
        (r.0@, r.1@) == layout_entry(h@),
{
    let mut i: usize = 0;
    while i < h.len()
        invariant
            i <= h.len(),
            forall|k: int| 0 <= k < i ==> !is_ws(#[trigger] h@[k]),
        decreases h.len() - i,
    {
        if is_ws_char(h[i]) {
            proof {
                assert(first_ws_at(h@, i as int));
                let j = choose|j: int| first_ws_at(h@, j);
                if j < i {
                    assert(!is_ws(h@[j]));
                } else if j > i {
                    assert(!is_ws(h@[i as int]));
                }
            }
            return (trimmed(&slice(h, 0, i)), trimmed(&slice(h, i + 1, h.len())));
        }
        i = i + 1;
    }
    assert(!exists|k: int| first_ws_at(h@, k));
    (trimmed(h), Vec::new())
}

pub fn layouts_json(content: &str) -> (r: String)
    ensures
        r@ == layouts_json_spec(content@),
{
    let ls = lines(&chars_of(content));
    let mut in_section = false;
    let mut body: Vec<char> = Vec::new();
    let mut count: usize = 0;
    let ghost mut items: Seq<Seq<char>> = Seq::empty();
    let mut i: usize = 0;
    while i < ls.len()
        invariant
            i <= ls.len(),
            views(ls@) == lines_of(content@),
            layouts_scan(views(ls@).take(i as int)) == (LayoutScan { in_section, items }),
            body@ == joined(items),
            count == items.len(),
            count <= i,
        decreases ls.len() - i,
    {
        assert(views(ls@).take(i + 1).drop_last() == views(ls@).take(i as int));
        assert(views(ls@).take(i + 1).last() == ls@[i as int]@);
        let h = trimmed(&ls[i]);
        if h.len() > 0 && h[0] == '!' {
            in_section = is(&h, "! layout");
        } else if in_section && h.len() > 0 {
            let (code, name) = layout_entry_of(&h);
            if code.len() > 0 {
                let ghost before = body@;
                if count > 0 {
                    append_str(&mut body, ",");
                }
                append_str(&mut body, "{\"code\":\"");
                esc_into(&mut body, &code);
                append_str(&mut body, "\",\"name\":\"");
                esc_into(&mut body, &name);
                append_str(&mut body, "\"}");
                proof {
                    let item = layout_item(code@, name@);
                    let next = items.push(item);
                    assert(next.drop_last() == items);
                    if count == 0 {
                        assert(body@ =~= item);
                    } else {
                        assert(body@ =~= joined(items) + ","@ + item);
                    }
                    items = next;
                }
                count = count + 1;
            }
        }
        i = i + 1;
    }
    assert(views(ls@).take(ls.len() as int) == views(ls@));
    let mut out = chars_of("{\"ok\":true,\"layouts\":[");
    append(&mut out, &body);
    append_str(&mut out, "]}");
    string_of(&out)
}

} // verus!

verus! {

/// `{"path":...,"name":...,"uniq":...}` for one input node.
pub open spec fn device_item(t: Triple) -> Seq<char> {
    "{\"path\":\""@ + esc_spec(t.0) + "\",\"name\":\""@ + esc_spec(t.1) + "\",\"uniq\":\""@ + esc_spec(t.2)
        + "\"}"@
}

/// A node the settings app may offer: anything but our own virtual keyboard.
pub open spec fn offered_node(t: Triple) -> bool {
    t.1 != own_name()
}

/// The nodes listed, by path, name and uniq: all but our own virtual
/// keyboard, sorted as Rust sorts the triples.
pub open spec fn listed_devices(nodes: Seq<Triple>) -> Seq<Triple> {
    nodes.filter(|t: Triple| offered_node(t)).sort_by(triple_order())
}

pub open spec fn devices_json_spec(nodes: Seq<Triple>) -> Seq<char> {
    "{\"ok\":true,\"devices\":["@ + joined(listed_devices(nodes).map_values(|t: Triple| device_item(t)))
        + "]}"@
}

/// The path, name and uniq of each node, as texts.
pub open spec fn node_views(nodes: Seq<(String, String, String)>) -> Seq<Triple> {
    nodes.map_values(|n: (String, String, String)| (n.0@, n.1@, n.2@))
}

/// The nodes that are not our own virtual keyboard, in the order given.
fn offered_nodes(nodes: &Vec<(String, String, String)>) -> (r: Vec<TripleOf>)
    ensures
        triple_views(r@) == node_views(nodes@).filter(|t: Triple| offered_node(t)),
{
    let ghost all = node_views(nodes@);
    let ghost keep = |t: Triple| offered_node(t);
    let own = chars_of("kindle-button-mapper");
    let mut kept: Vec<TripleOf> = Vec::new();
    let mut i: usize = 0;
    while i < nodes.len()
        invariant
            i <= nodes.len(),
            all == node_views(nodes@),
            own@ == own_name(),
            keep == (|t: Triple| offered_node(t)),
            triple_views(kept@) == all.take(i as int).filter(keep),
        decreases nodes.len() - i,
    {
        let ghost before = kept@;
        let ghost x = all[i as int];
        let name = chars_of(nodes[i].1.as_str());
        proof {
            assert(x == (nodes@[i as int].0@, nodes@[i as int].1@, nodes@[i as int].2@));
            let t = all.take(i + 1);
            assert(t.drop_last() =~= all.take(i as int));
            assert(t.last() == x);
            reveal_with_fuel(Seq::filter, 1);
            assert(t.filter(keep) == if keep(t.last()) {
                t.drop_last().filter(keep).push(t.last())
            } else {
                t.drop_last().filter(keep)
            });
            assert(all.take(i + 1).filter(keep) == if keep(x) {
                all.take(i as int).filter(keep).push(x)
            } else {
                all.take(i as int).filter(keep)
            });
        }
        if !same(&name, &own) {
            kept.push((chars_of(nodes[i].0.as_str()), name, chars_of(nodes[i].2.as_str())));
            assert(triple_views(kept@) =~= triple_views(before).push(x));
        }
        i = i + 1;
    }
    assert(all.take(nodes.len() as int) =~= all);
    kept
}

/// The listed nodes' items, joined by commas.
fn device_items(sorted: &Vec<TripleOf>) -> (r: Vec<char>)
    ensures
        r@ == joined(triple_views(sorted@).map_values(|t: Triple| device_item(t))),
{
    let ghost listed = triple_views(sorted@);
    let ghost items = listed.map_values(|t: Triple| device_item(t));
    let mut body: Vec<char> = Vec::new();
    let mut j: usize = 0;
    while j < sorted.len()
        invariant
            j <= sorted.len(),
            listed == triple_views(sorted@),
            items == listed.map_values(|t: Triple| device_item(t)),
            body@ == joined(items.take(j as int)),
        decreases sorted.len() - j,
    {
        assert(items.take(j + 1).drop_last() == items.take(j as int));
        if j > 0 {
            append_str(&mut body, ",");
        }
        let ghost start = body@;
        append_str(&mut body, "{\"path\":\"");
        esc_into(&mut body, &sorted[j].0);
        append_str(&mut body, "\",\"name\":\"");
        esc_into(&mut body, &sorted[j].1);
        append_str(&mut body, "\",\"uniq\":\"");
        esc_into(&mut body, &sorted[j].2);
        append_str(&mut body, "\"}");
        assert(triple_view(sorted@[j as int]) == listed[j as int]);
        assert(body@ =~= start + device_item(listed[j as int]));
        if j == 0 {
            assert(items.take(1) =~= seq![items[0]]);
        }
        j = j + 1;
    }
    assert(items.take(sorted.len() as int) == items);
    body
}

/// The input nodes the settings app can pick from, given each `event*`
/// node's path, name and uniq.
pub fn devices_json(nodes: &Vec<(String, String, String)>) -> (r: String)
    ensures
        r@ == devices_json_spec(node_views(nodes@)),
{
    let kept = offered_nodes(nodes);
    let sorted = sort_triples(kept);
    let body = device_items(&sorted);
    let mut out = chars_of("{\"ok\":true,\"devices\":[");
    append(&mut out, &body);
    append_str(&mut out, "]}");
    string_of(&out)
}

} // verus!

verus! {

/// The byte of an upper-case hex digit.
pub open spec fn hex_byte(n: u8) -> u8 {
    if n < 10 { (0x30 + n) as u8 } else { (0x41 + n - 10) as u8 }
}

/// The bytes one byte becomes in a percent-encoded text.
pub open spec fn escape_bytes(b: u8) -> Seq<u8> {
    if unreserved(b) { seq![b] } else { seq![0x25u8, hex_byte(b / 16), hex_byte(b % 16)] }
}

/// The bytes of a percent-encoded byte string.
pub open spec fn escaped_bytes(bs: Seq<u8>) -> Seq<u8>
    decreases bs.len(),
{
    if bs.len() == 0 {
        Seq::empty()
    } else {
        escaped_bytes(bs.drop_last()) + escape_bytes(bs.last())
    }
}

proof fn lemma_encode_concat(a: Seq<char>, b: Seq<char>)
    ensures
        encode_utf8(a + b) == encode_utf8(a) + encode_utf8(b),
    decreases a.len(),
{
    if a.len() == 0 {
        assert(a + b =~= b);
        assert(encode_utf8(a) + encode_utf8(b) =~= encode_utf8(b));
    } else {
        assert((a + b).drop_first() =~= a.drop_first() + b);
        assert((a + b)[0] == a[0]);
        lemma_encode_concat(a.drop_first(), b);
        assert(encode_utf8(a + b) =~= encode_utf8(a) + encode_utf8(b));
    }
}

proof fn lemma_ascii_char(c: char)
    requires
        (c as u32) < 0x80,
    ensures
        encode_utf8(seq![c]) == seq![(c as u32) as u8],
{
    let v = c as u32;
    assert(v & 0x7f == v) by (bit_vector)
        requires
            v < 0x80,
    ;
    assert(seq![c].drop_first() =~= Seq::<char>::empty());
    assert(seq![c][0] == c);
    assert(vstd::utf8::has_width_1_encoding(v));
    assert(vstd::utf8::encode_scalar(v) == seq![vstd::utf8::leading_byte_width_1(v)]);
    assert(vstd::utf8::leading_byte_width_1(v) == v as u8);
    assert(encode_utf8(Seq::<char>::empty()) =~= Seq::<u8>::empty());
    assert(encode_utf8(seq![c]) == vstd::utf8::encode_scalar(v) + encode_utf8(Seq::<char>::empty()));
    assert(encode_utf8(seq![c]) =~= seq![(c as u32) as u8]);
}

proof fn lemma_escape_bytes(b: u8)
    ensures
        encode_utf8(escape(b)) == escape_bytes(b),
{
    if unreserved(b) {
        assert((b as char) as u32 == b);
        lemma_ascii_char(b as char);
    } else {
        let h = hex_digit(b / 16);
        let l = hex_digit(b % 16);
        assert(b / 16 < 16 && b % 16 < 16);
        assert((h as u32) == hex_byte(b / 16));
        assert((l as u32) == hex_byte(b % 16));
        assert(('%' as u32) == 0x25);
        lemma_ascii_char('%');
        lemma_ascii_char(h);
        lemma_ascii_char(l);
        assert(escape(b) =~= seq!['%'] + (seq![h] + seq![l]));
        lemma_encode_concat(seq!['%'], seq![h] + seq![l]);
        lemma_encode_concat(seq![h], seq![l]);
        assert(encode_utf8(escape(b)) =~= escape_bytes(b));
    }
}

proof fn lemma_percent_bytes(bs: Seq<u8>)
    ensures
        encode_utf8(percent(bs)) == escaped_bytes(bs),
    decreases bs.len(),
{
    if bs.len() > 0 {
        lemma_percent_bytes(bs.drop_last());
        lemma_encode_concat(percent(bs.drop_last()), escape(bs.last()));
        lemma_escape_bytes(bs.last());
    }
}

proof fn lemma_url_bytes_escape(b: u8, rest: Seq<u8>)
    ensures
        url_bytes(escape_bytes(b) + rest) == seq![b] + url_bytes(rest),
{
    let s = escape_bytes(b) + rest;
    if unreserved(b) {
        assert(s[0] == b);
        assert(s.drop_first() =~= rest);
    } else {
        let h = hex_byte(b / 16);
        let l = hex_byte(b % 16);
        assert(s[0] == 0x25 && s[1] == h && s[2] == l);
        assert(s.skip(3) =~= rest);
        assert(b / 16 < 16 && b % 16 < 16);
        assert(hex_val(h) == Some((b / 16) as u8));
        assert(hex_val(l) == Some((b % 16) as u8));
        assert(pct_byte(h, l) == b);
    }
}

proof fn lemma_url_bytes_escaped(bs: Seq<u8>, rest: Seq<u8>)
    ensures
        url_bytes(escaped_bytes(bs) + rest) == bs + url_bytes(rest),
    decreases bs.len(),
{
    if bs.len() == 0 {
        assert(escaped_bytes(bs) + rest =~= rest);
        assert(bs + url_bytes(rest) =~= url_bytes(rest));
    } else {
        let last = bs.last();
        assert(escaped_bytes(bs) + rest =~= escaped_bytes(bs.drop_last()) + (escape_bytes(last) + rest));
        lemma_url_bytes_escaped(bs.drop_last(), escape_bytes(last) + rest);
        lemma_url_bytes_escape(last, rest);
        assert(bs.drop_last() + (seq![last] + url_bytes(rest)) =~= bs + url_bytes(rest));
    }
}

/// URL decoding undoes the percent-encoding of the requests sent to
/// KOReader: decoding an encoded text restores exactly its bytes, which are
/// valid UTF-8, and so (by `url_decode`'s contract) the text itself.
pub proof fn law_url_decode_inverts_encode(text: Seq<char>)
    ensures
        url_bytes(encode_utf8(percent(encode_utf8(text)))) == encode_utf8(text),
        valid_utf8(url_bytes(encode_utf8(percent(encode_utf8(text))))),
        decode_utf8(url_bytes(encode_utf8(percent(encode_utf8(text))))) == text,
{
    let bs = encode_utf8(text);
    lemma_percent_bytes(bs);
    lemma_url_bytes_escaped(bs, Seq::empty());
    assert(escaped_bytes(bs) + Seq::<u8>::empty() =~= escaped_bytes(bs));
    assert(url_bytes(Seq::<u8>::empty()) =~= Seq::<u8>::empty());
    assert(bs + Seq::<u8>::empty() =~= bs);
    vstd::utf8::encode_utf8_valid_utf8(text);
    vstd::utf8::encode_utf8_decode_utf8(text);
}

} // verus!

verus! {

/// The index of the first event worth reporting during a capture.
pub open spec fn first_reportable(events: Seq<(crate::worker::EventKind, i32)>, i: int) -> bool {
    &&& 0 <= i < events.len()
    &&& capture_reply_spec(events[i].0, events[i].1) is Some
    &&& forall|j: int| 0 <= j < i ==> capture_reply_spec(events[j].0, events[j].1) is None
}

/// The reply to a batch of events read during a capture: that of the first
/// one worth reporting, or None when there is none and reading goes on
/// (until the deadline, when the reply is the `timeout` error).
pub fn capture_events(events: &Vec<(crate::worker::EventKind, i32)>) -> (r: Option<String>)
    ensures
        match r {
            Some(t) => exists|i: int| #[trigger] first_reportable(events@, i)
                && capture_reply_spec(events@[i].0, events@[i].1) == Some(t@),
            None => forall|j: int| 0 <= j < events@.len() ==> #[trigger] capture_reply_spec(events@[j].0, events@[j].1) is None,
        },
{
    let mut i: usize = 0;
    while i < events.len()
        invariant
            i <= events.len(),
            forall|j: int| 0 <= j < i ==> #[trigger] capture_reply_spec(events@[j].0, events@[j].1) is None,
        decreases events.len() - i,
    {
        let (kind, value) = events[i];
        if let Some(reply) = capture_reply(kind, value) {
            assert(first_reportable(events@, i as int));
            return Some(reply);
        }
        i = i + 1;
    }
    None
}

/// Reading a capture in batches reports the same event as reading it at
/// once: when a first batch holds nothing worth reporting, the first event
/// of the whole stream worth reporting is the first such of the second.
pub proof fn law_capture_reports_the_first_event(
    a: Seq<(crate::worker::EventKind, i32)>,
    b: Seq<(crate::worker::EventKind, i32)>,
    i: int,
)
    requires
        forall|j: int| 0 <= j < a.len() ==> #[trigger] capture_reply_spec(a[j].0, a[j].1) is None,
        first_reportable(b, i),
    ensures
        first_reportable(a + b, a.len() + i),
        (a + b)[a.len() + i] == b[i],
{
    let s = a + b;
    assert forall|j: int| 0 <= j < a.len() + i implies capture_reply_spec(#[trigger] s[j].0, s[j].1) is None by {
        if j < a.len() {
            assert(s[j] == a[j]);
        } else {
            assert(s[j] == b[j - a.len()]);
        }
    }
}

/// What a capture that saw nothing worth reporting answers.
pub fn capture_timeout_reply() -> (r: String)
    ensures
        r@ == json_err_spec("timeout"@),
{
    json_err("timeout")
}

} // verus!

verus! {

/// Each request reaches its own handler and no other: every endpoint is
/// reached by exactly its method and route (`GET /` and `GET /health` for
/// the health check, `POST /stop` to stop the daemon, `POST /start` to start
/// it, and so on), and anything else is not found.
pub proof fn law_each_request_reaches_its_own_handler(m: Seq<char>, r: Seq<char>)
    ensures
        endpoint_spec(m, r) == Endpoint::Health <==> (m == "GET"@ && (r == "/"@ || r == "/health"@)),
        endpoint_spec(m, r) == Endpoint::Status <==> (m == "GET"@ && (r == "/status"@)),
        endpoint_spec(m, r) == Endpoint::KoreaderStatus <==> (m == "GET"@ && (r == "/koreader/status"@)),
        endpoint_spec(m, r) == Endpoint::Logs <==> (m == "GET"@ && (r == "/logs"@)),
        endpoint_spec(m, r) == Endpoint::ReadConfig <==> (m == "GET"@ && (r == "/config"@)),
        endpoint_spec(m, r) == Endpoint::WriteConfig <==> (m == "POST"@ && (r == "/config"@)),
        endpoint_spec(m, r) == Endpoint::Devices <==> (m == "GET"@ && (r == "/devices"@)),
        endpoint_spec(m, r) == Endpoint::Actions <==> (m == "GET"@ && (r == "/actions"@)),
        endpoint_spec(m, r) == Endpoint::Layouts <==> (m == "GET"@ && (r == "/layouts"@)),
        endpoint_spec(m, r) == Endpoint::Capture <==> (m == "GET"@ && (r == "/capture"@)),
        endpoint_spec(m, r) == Endpoint::Reload <==> (m == "POST"@ && (r == "/reload"@)),
        endpoint_spec(m, r) == Endpoint::Stop <==> (m == "POST"@ && (r == "/stop"@)),
        endpoint_spec(m, r) == Endpoint::Start <==> (m == "POST"@ && (r == "/start"@)),
        endpoint_spec(m, r) == Endpoint::Quit <==> (m == "POST"@ && (r == "/quit"@)),
        endpoint_spec(m, r) == Endpoint::ExitApp <==> (m == "POST"@ && (r == "/exit-app"@)),
        endpoint_spec(m, r) == Endpoint::NotFound <==> !((m == "GET"@ && (r == "/"@ || r == "/health"@))
            || (m == "GET"@ && (r == "/status"@))
            || (m == "GET"@ && (r == "/koreader/status"@))
            || (m == "GET"@ && (r == "/logs"@))
            || (m == "GET"@ && (r == "/config"@))
            || (m == "POST"@ && (r == "/config"@))
            || (m == "GET"@ && (r == "/devices"@))
            || (m == "GET"@ && (r == "/actions"@))
            || (m == "GET"@ && (r == "/layouts"@))
            || (m == "GET"@ && (r == "/capture"@))
            || (m == "POST"@ && (r == "/reload"@))
            || (m == "POST"@ && (r == "/stop"@))
            || (m == "POST"@ && (r == "/start"@))
            || (m == "POST"@ && (r == "/quit"@))
            || (m == "POST"@ && (r == "/exit-app"@))),
{
    reveal_strlit("/");
    reveal_strlit("/actions");
    reveal_strlit("/capture");
    reveal_strlit("/config");
    reveal_strlit("/devices");
    reveal_strlit("/exit-app");
    reveal_strlit("/health");
    reveal_strlit("/koreader/status");
    reveal_strlit("/layouts");
    reveal_strlit("/logs");
    reveal_strlit("/quit");
    reveal_strlit("/reload");
    reveal_strlit("/start");
    reveal_strlit("/status");
    reveal_strlit("/stop");
    reveal_strlit("GET");
    reveal_strlit("POST");
    assert("/"@ != "/actions"@) by { assert("/"@.len() != "/actions"@.len()); }
    assert("/"@ != "/capture"@) by { assert("/"@.len() != "/capture"@.len()); }
    assert("/"@ != "/config"@) by { assert("/"@.len() != "/config"@.len()); }
    assert("/"@ != "/devices"@) by { assert("/"@.len() != "/devices"@.len()); }
    assert("/"@ != "/exit-app"@) by { assert("/"@.len() != "/exit-app"@.len()); }
    assert("/"@ != "/health"@) by { assert("/"@.len() != "/health"@.len()); }
    assert("/"@ != "/koreader/status"@) by { assert("/"@.len() != "/koreader/status"@.len()); }
    assert("/"@ != "/layouts"@) by { assert("/"@.len() != "/layouts"@.len()); }
    assert("/"@ != "/logs"@) by { assert("/"@.len() != "/logs"@.len()); }
    assert("/"@ != "/quit"@) by { assert("/"@.len() != "/quit"@.len()); }
    assert("/"@ != "/reload"@) by { assert("/"@.len() != "/reload"@.len()); }
    assert("/"@ != "/start"@) by { assert("/"@.len() != "/start"@.len()); }
    assert("/"@ != "/status"@) by { assert("/"@.len() != "/status"@.len()); }
    assert("/"@ != "/stop"@) by { assert("/"@.len() != "/stop"@.len()); }
    assert("/"@ != "GET"@) by { assert("/"@.len() != "GET"@.len()); }
    assert("/"@ != "POST"@) by { assert("/"@.len() != "POST"@.len()); }
    assert("/actions"@ != "/capture"@) by { assert("/actions"@[1] != "/capture"@[1]); }
    assert("/actions"@ != "/config"@) by { assert("/actions"@.len() != "/config"@.len()); }
    assert("/actions"@ != "/devices"@) by { assert("/actions"@[1] != "/devices"@[1]); }
    assert("/actions"@ != "/exit-app"@) by { assert("/actions"@.len() != "/exit-app"@.len()); }
    assert("/actions"@ != "/health"@) by { assert("/actions"@.len() != "/health"@.len()); }
    assert("/actions"@ != "/koreader/status"@) by { assert("/actions"@.len() != "/koreader/status"@.len()); }
    assert("/actions"@ != "/layouts"@) by { assert("/actions"@[1] != "/layouts"@[1]); }
    assert("/actions"@ != "/logs"@) by { assert("/actions"@.len() != "/logs"@.len()); }
    assert("/actions"@ != "/quit"@) by { assert("/actions"@.len() != "/quit"@.len()); }
    assert("/actions"@ != "/reload"@) by { assert("/actions"@.len() != "/reload"@.len()); }
    assert("/actions"@ != "/start"@) by { assert("/actions"@.len() != "/start"@.len()); }
    assert("/actions"@ != "/status"@) by { assert("/actions"@.len() != "/status"@.len()); }
    assert("/actions"@ != "/stop"@) by { assert("/actions"@.len() != "/stop"@.len()); }
    assert("/actions"@ != "GET"@) by { assert("/actions"@.len() != "GET"@.len()); }
    assert("/actions"@ != "POST"@) by { assert("/actions"@.len() != "POST"@.len()); }
    assert("/capture"@ != "/config"@) by { assert("/capture"@.len() != "/config"@.len()); }
    assert("/capture"@ != "/devices"@) by { assert("/capture"@[1] != "/devices"@[1]); }
    assert("/capture"@ != "/exit-app"@) by { assert("/capture"@.len() != "/exit-app"@.len()); }
    assert("/capture"@ != "/health"@) by { assert("/capture"@.len() != "/health"@.len()); }
    assert("/capture"@ != "/koreader/status"@) by { assert("/capture"@.len() != "/koreader/status"@.len()); }
    assert("/capture"@ != "/layouts"@) by { assert("/capture"@[1] != "/layouts"@[1]); }
    assert("/capture"@ != "/logs"@) by { assert("/capture"@.len() != "/logs"@.len()); }
    assert("/capture"@ != "/quit"@) by { assert("/capture"@.len() != "/quit"@.len()); }
    assert("/capture"@ != "/reload"@) by { assert("/capture"@.len() != "/reload"@.len()); }
    assert("/capture"@ != "/start"@) by { assert("/capture"@.len() != "/start"@.len()); }
    assert("/capture"@ != "/status"@) by { assert("/capture"@.len() != "/status"@.len()); }
    assert("/capture"@ != "/stop"@) by { assert("/capture"@.len() != "/stop"@.len()); }
    assert("/capture"@ != "GET"@) by { assert("/capture"@.len() != "GET"@.len()); }
    assert("/capture"@ != "POST"@) by { assert("/capture"@.len() != "POST"@.len()); }
    assert("/config"@ != "/devices"@) by { assert("/config"@.len() != "/devices"@.len()); }
    assert("/config"@ != "/exit-app"@) by { assert("/config"@.len() != "/exit-app"@.len()); }
    assert("/config"@ != "/health"@) by { assert("/config"@[1] != "/health"@[1]); }
    assert("/config"@ != "/koreader/status"@) by { assert("/config"@.len() != "/koreader/status"@.len()); }
    assert("/config"@ != "/layouts"@) by { assert("/config"@.len() != "/layouts"@.len()); }
    assert("/config"@ != "/logs"@) by { assert("/config"@.len() != "/logs"@.len()); }
    assert("/config"@ != "/quit"@) by { assert("/config"@.len() != "/quit"@.len()); }
    assert("/config"@ != "/reload"@) by { assert("/config"@[1] != "/reload"@[1]); }
    assert("/config"@ != "/start"@) by { assert("/config"@.len() != "/start"@.len()); }
    assert("/config"@ != "/status"@) by { assert("/config"@[1] != "/status"@[1]); }
    assert("/config"@ != "/stop"@) by { assert("/config"@.len() != "/stop"@.len()); }
    assert("/config"@ != "GET"@) by { assert("/config"@.len() != "GET"@.len()); }
    assert("/config"@ != "POST"@) by { assert("/config"@.len() != "POST"@.len()); }
    assert("/devices"@ != "/exit-app"@) by { assert("/devices"@.len() != "/exit-app"@.len()); }
    assert("/devices"@ != "/health"@) by { assert("/devices"@.len() != "/health"@.len()); }
    assert("/devices"@ != "/koreader/status"@) by { assert("/devices"@.len() != "/koreader/status"@.len()); }
    assert("/devices"@ != "/layouts"@) by { assert("/devices"@[1] != "/layouts"@[1]); }
    assert("/devices"@ != "/logs"@) by { assert("/devices"@.len() != "/logs"@.len()); }
    assert("/devices"@ != "/quit"@) by { assert("/devices"@.len() != "/quit"@.len()); }
    assert("/devices"@ != "/reload"@) by { assert("/devices"@.len() != "/reload"@.len()); }
    assert("/devices"@ != "/start"@) by { assert("/devices"@.len() != "/start"@.len()); }
    assert("/devices"@ != "/status"@) by { assert("/devices"@.len() != "/status"@.len()); }
    assert("/devices"@ != "/stop"@) by { assert("/devices"@.len() != "/stop"@.len()); }
    assert("/devices"@ != "GET"@) by { assert("/devices"@.len() != "GET"@.len()); }
    assert("/devices"@ != "POST"@) by { assert("/devices"@.len() != "POST"@.len()); }
    assert("/exit-app"@ != "/health"@) by { assert("/exit-app"@.len() != "/health"@.len()); }
    assert("/exit-app"@ != "/koreader/status"@) by { assert("/exit-app"@.len() != "/koreader/status"@.len()); }
    assert("/exit-app"@ != "/layouts"@) by { assert("/exit-app"@.len() != "/layouts"@.len()); }
    assert("/exit-app"@ != "/logs"@) by { assert("/exit-app"@.len() != "/logs"@.len()); }
    assert("/exit-app"@ != "/quit"@) by { assert("/exit-app"@.len() != "/quit"@.len()); }
    assert("/exit-app"@ != "/reload"@) by { assert("/exit-app"@.len() != "/reload"@.len()); }
    assert("/exit-app"@ != "/start"@) by { assert("/exit-app"@.len() != "/start"@.len()); }
    assert("/exit-app"@ != "/status"@) by { assert("/exit-app"@.len() != "/status"@.len()); }
    assert("/exit-app"@ != "/stop"@) by { assert("/exit-app"@.len() != "/stop"@.len()); }
    assert("/exit-app"@ != "GET"@) by { assert("/exit-app"@.len() != "GET"@.len()); }
    assert("/exit-app"@ != "POST"@) by { assert("/exit-app"@.len() != "POST"@.len()); }
    assert("/health"@ != "/koreader/status"@) by { assert("/health"@.len() != "/koreader/status"@.len()); }
    assert("/health"@ != "/layouts"@) by { assert("/health"@.len() != "/layouts"@.len()); }
    assert("/health"@ != "/logs"@) by { assert("/health"@.len() != "/logs"@.len()); }
    assert("/health"@ != "/quit"@) by { assert("/health"@.len() != "/quit"@.len()); }
    assert("/health"@ != "/reload"@) by { assert("/health"@[1] != "/reload"@[1]); }
    assert("/health"@ != "/start"@) by { assert("/health"@.len() != "/start"@.len()); }
    assert("/health"@ != "/status"@) by { assert("/health"@[1] != "/status"@[1]); }
    assert("/health"@ != "/stop"@) by { assert("/health"@.len() != "/stop"@.len()); }
    assert("/health"@ != "GET"@) by { assert("/health"@.len() != "GET"@.len()); }
    assert("/health"@ != "POST"@) by { assert("/health"@.len() != "POST"@.len()); }
    assert("/koreader/status"@ != "/layouts"@) by { assert("/koreader/status"@.len() != "/layouts"@.len()); }
    assert("/koreader/status"@ != "/logs"@) by { assert("/koreader/status"@.len() != "/logs"@.len()); }
    assert("/koreader/status"@ != "/quit"@) by { assert("/koreader/status"@.len() != "/quit"@.len()); }
    assert("/koreader/status"@ != "/reload"@) by { assert("/koreader/status"@.len() != "/reload"@.len()); }
    assert("/koreader/status"@ != "/start"@) by { assert("/koreader/status"@.len() != "/start"@.len()); }
    assert("/koreader/status"@ != "/status"@) by { assert("/koreader/status"@.len() != "/status"@.len()); }
    assert("/koreader/status"@ != "/stop"@) by { assert("/koreader/status"@.len() != "/stop"@.len()); }
    assert("/koreader/status"@ != "GET"@) by { assert("/koreader/status"@.len() != "GET"@.len()); }
    assert("/koreader/status"@ != "POST"@) by { assert("/koreader/status"@.len() != "POST"@.len()); }
    assert("/layouts"@ != "/logs"@) by { assert("/layouts"@.len() != "/logs"@.len()); }
    assert("/layouts"@ != "/quit"@) by { assert("/layouts"@.len() != "/quit"@.len()); }
    assert("/layouts"@ != "/reload"@) by { assert("/layouts"@.len() != "/reload"@.len()); }
    assert("/layouts"@ != "/start"@) by { assert("/layouts"@.len() != "/start"@.len()); }
    assert("/layouts"@ != "/status"@) by { assert("/layouts"@.len() != "/status"@.len()); }
    assert("/layouts"@ != "/stop"@) by { assert("/layouts"@.len() != "/stop"@.len()); }
    assert("/layouts"@ != "GET"@) by { assert("/layouts"@.len() != "GET"@.len()); }
    assert("/layouts"@ != "POST"@) by { assert("/layouts"@.len() != "POST"@.len()); }
    assert("/logs"@ != "/quit"@) by { assert("/logs"@[1] != "/quit"@[1]); }
    assert("/logs"@ != "/reload"@) by { assert("/logs"@.len() != "/reload"@.len()); }
    assert("/logs"@ != "/start"@) by { assert("/logs"@.len() != "/start"@.len()); }
    assert("/logs"@ != "/status"@) by { assert("/logs"@.len() != "/status"@.len()); }
    assert("/logs"@ != "/stop"@) by { assert("/logs"@[1] != "/stop"@[1]); }
    assert("/logs"@ != "GET"@) by { assert("/logs"@.len() != "GET"@.len()); }
    assert("/logs"@ != "POST"@) by { assert("/logs"@.len() != "POST"@.len()); }
    assert("/quit"@ != "/reload"@) by { assert("/quit"@.len() != "/reload"@.len()); }
    assert("/quit"@ != "/start"@) by { assert("/quit"@.len() != "/start"@.len()); }
    assert("/quit"@ != "/status"@) by { assert("/quit"@.len() != "/status"@.len()); }
    assert("/quit"@ != "/stop"@) by { assert("/quit"@[1] != "/stop"@[1]); }
    assert("/quit"@ != "GET"@) by { assert("/quit"@.len() != "GET"@.len()); }
    assert("/quit"@ != "POST"@) by { assert("/quit"@.len() != "POST"@.len()); }
    assert("/reload"@ != "/start"@) by { assert("/reload"@.len() != "/start"@.len()); }
    assert("/reload"@ != "/status"@) by { assert("/reload"@[1] != "/status"@[1]); }
    assert("/reload"@ != "/stop"@) by { assert("/reload"@.len() != "/stop"@.len()); }
    assert("/reload"@ != "GET"@) by { assert("/reload"@.len() != "GET"@.len()); }
    assert("/reload"@ != "POST"@) by { assert("/reload"@.len() != "POST"@.len()); }
    assert("/start"@ != "/status"@) by { assert("/start"@.len() != "/status"@.len()); }
    assert("/start"@ != "/stop"@) by { assert("/start"@.len() != "/stop"@.len()); }
    assert("/start"@ != "GET"@) by { assert("/start"@.len() != "GET"@.len()); }
    assert("/start"@ != "POST"@) by { assert("/start"@.len() != "POST"@.len()); }
    assert("/status"@ != "/stop"@) by { assert("/status"@.len() != "/stop"@.len()); }
    assert("/status"@ != "GET"@) by { assert("/status"@.len() != "GET"@.len()); }
    assert("/status"@ != "POST"@) by { assert("/status"@.len() != "POST"@.len()); }
    assert("/stop"@ != "GET"@) by { assert("/stop"@.len() != "GET"@.len()); }
    assert("/stop"@ != "POST"@) by { assert("/stop"@.len() != "POST"@.len()); }
    assert("GET"@ != "POST"@) by { assert("GET"@.len() != "POST"@.len()); }
}

} // verus!
