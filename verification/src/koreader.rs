//! Requests to KOReader's HTTP Inspector: events such as `GotoViewRel/1`,
//! and text typed into whichever input field has focus.

use vstd::prelude::*;
use vstd::utf8::{decode_utf8, encode_utf8, valid_utf8};
use crate::text::{
    append, append_str, chars_of, concat, decimal, decimal_of, parse_u16, parse_u16_of, string_of, tokens, tokens_of,
};

verus! {

pub const PORT: u16 = 8080;

/// A byte that goes into a URL as itself.
pub open spec fn unreserved(b: u8) -> bool {
    (0x30 <= b <= 0x39) || (0x41 <= b <= 0x5a) || (0x61 <= b <= 0x7a) || b == 0x2d || b == 0x2e || b == 0x5f
        || b == 0x7e
}

/// An upper-case hex digit.
pub open spec fn hex_digit(n: u8) -> char {
    if n < 10 { (0x30 + n) as char } else { (0x41 + n - 10) as char }
}

/// How one byte appears in a URL.
pub open spec fn escape(b: u8) -> Seq<char> {
    if unreserved(b) { seq![b as char] } else { seq!['%', hex_digit(b / 16), hex_digit(b % 16)] }
}

/// Percent-encoding of a byte string.
pub open spec fn percent(bs: Seq<u8>) -> Seq<char>
    decreases bs.len(),
{
    if bs.len() == 0 {
        Seq::empty()
    } else {
        percent(bs.drop_last()) + escape(bs.last())
    }
}

fn hex_digit_of(n: u8) -> (r: char)
    requires
        n < 16,
    ensures
        r == hex_digit(n),
{
    if n < 10 { (0x30 + n) as char } else { (0x41 + n - 10) as char }
}

/// The UTF-8 bytes of `text`, percent-encoded.
pub fn encode(text: &str) -> (r: String)
    ensures
        r@ == percent(encode_utf8(text@)),
{
    let bytes = text.as_bytes();
    let mut out: Vec<char> = Vec::new();
    let mut i: usize = 0;
    while i < bytes.len()
        invariant
            i <= bytes@.len(),
            bytes@ == encode_utf8(text@),
            out@ == percent(bytes@.take(i as int)),
        decreases bytes@.len() - i,
    {
        let b = bytes[i];
        assert(bytes@.take(i + 1).drop_last() == bytes@.take(i as int));
        if (0x30 <= b && b <= 0x39) || (0x41 <= b && b <= 0x5a) || (0x61 <= b && b <= 0x7a) || b == 0x2d
            || b == 0x2e || b == 0x5f || b == 0x7e {
            out.push(b as char);
        } else {
            out.push('%');
            out.push(hex_digit_of(b / 16));
            out.push(hex_digit_of(b % 16));
        }
        i = i + 1;
    }
    assert(bytes@.take(bytes@.len() as int) == bytes@);
    string_of(&out)
}

/// The quote a text argument goes in: one the text does not contain, since
/// the inspector's parser has no escape inside quotes.
pub open spec fn quote_for(text: Seq<char>) -> char {
    if text.contains('"') { '\'' } else { '"' }
}

/// The path that types `text`. The inspector runs unquoted arguments
/// through `tonumber`, so a digit would arrive as a number and never reach
/// `addChars`; quoting keeps it a string.
pub open spec fn text_path_spec(text: &str) -> Seq<char> {
    "/koreader/event/TextInput/"@ + seq![quote_for(text@)] + percent(encode_utf8(text@)) + seq![quote_for(text@)]
}

pub fn text_path(text: &str) -> (r: String)
    ensures
        r@ == text_path_spec(text),
{
    let t = chars_of(text);
    let mut has_double = false;
    let mut i: usize = 0;
    while i < t.len()
        invariant
            i <= t.len(),
            has_double == t@.take(i as int).contains('"'),
        decreases t.len() - i,
    {
        assert(t@.take(i + 1) == t@.take(i as int).push(t@[i as int]));
        if t[i] == '"' {
            assert(t@.take(i + 1)[i as int] == '"');
            has_double = true;
        }
        i = i + 1;
    }
    assert(t@.take(t.len() as int) == t@);
    let quote = if has_double { '\'' } else { '"' };
    let mut out = chars_of("/koreader/event/TextInput/");
    out.push(quote);
    let enc = chars_of(encode(text).as_str());
    let mut j: usize = 0;
    let ghost base = out@;
    while j < enc.len()
        invariant
            j <= enc.len(),
            out@ == base + enc@.take(j as int),
        decreases enc.len() - j,
    {
        out.push(enc[j]);
        j = j + 1;
        assert(out@ == base + enc@.take(j as int));
    }
    assert(enc@.take(enc.len() as int) == enc@);
    out.push(quote);
    string_of(&out)
}

/// The path that delivers event `event`, e.g. `GotoViewRel/1`.
pub fn event_path(event: &str) -> (r: String)
    ensures
        r@ == "/koreader/event/"@ + event@,
{
    let head = chars_of("/koreader/event/");
    let tail = chars_of(event);
    let joined = concat(&head, &tail);
    string_of(&joined)
}

} // verus!

verus! {

/// std's `str::from_utf8`. Claims what its documentation says: it succeeds
/// exactly on valid UTF-8, with the text the bytes encode.
#[verifier::external_body]
fn utf8_text(b: &[u8]) -> (r: Option<&str>)
    ensures
        r is Some <==> valid_utf8(b@),
        r matches Some(s) ==> s@ == decode_utf8(b@),
{
    std::str::from_utf8(b).ok()
}

/// The status code of an HTTP response head: its second word, when the
/// bytes are text and that word is a number.
pub open spec fn status_code_spec(response: Seq<u8>) -> Option<u16> {
    if valid_utf8(response) && tokens(decode_utf8(response)).len() >= 2 {
        parse_u16(tokens(decode_utf8(response))[1])
    } else {
        None
    }
}

pub fn status_code(response: &[u8]) -> (r: Option<u16>)
    ensures
        r == status_code_spec(response@),
{
    let head = match utf8_text(response) {
        Some(h) => h,
        None => return None,
    };
    let toks = tokens_of(&chars_of(head));
    if toks.len() < 2 {
        return None;
    }
    parse_u16_of(&toks[1])
}

/// The request that fetches `path` from the inspector and closes.
pub open spec fn request_spec(path: Seq<char>) -> Seq<char> {
    "GET "@ + path + " HTTP/1.1\r\nHost: 127.0.0.1:"@ + decimal(PORT as nat) + "\r\nConnection: close\r\n\r\n"@
}

pub fn request(path: &str) -> (r: String)
    ensures
        r@ == request_spec(path@),
{
    let mut out = chars_of("GET ");
    append_str(&mut out, path);
    append_str(&mut out, " HTTP/1.1\r\nHost: 127.0.0.1:");
    append(&mut out, &decimal_of(PORT as u64));
    append_str(&mut out, "\r\nConnection: close\r\n\r\n");
    string_of(&out)
}

/// KOReader took an event with a success status.
pub fn accepted(code: u16) -> (r: bool)
    ensures
        r == (200 <= code < 300),
{
    200 <= code && code < 300
}

} // verus!


verus! {

proof fn lemma_percent_has_no_quote(bs: Seq<u8>)
    ensures
        !percent(bs).contains('"'),
        !percent(bs).contains('\''),
    decreases bs.len(),
{
    if bs.len() > 0 {
        lemma_percent_has_no_quote(bs.drop_last());
        let p = percent(bs.drop_last());
        let e = escape(bs.last());
        assert(percent(bs) == p + e);
        assert forall|i: int| 0 <= i < percent(bs).len() implies percent(bs)[i] != '"' && percent(bs)[i] != '\'' by {
            if i < p.len() {
                assert(percent(bs)[i] == p[i]);
            } else {
                assert(percent(bs)[i] == e[i - p.len()]);
                let b = bs.last();
                if !unreserved(b) {
                    assert(b / 16 < 16 && b % 16 < 16);
                }
            }
        }
    }
}

/// The text argument of a TextInput path holds neither quote character, so
/// the quote around it closes exactly where the argument ends, whatever the
/// text is.
pub proof fn law_text_argument_is_quoted_once(text: &str)
    ensures
        !percent(encode_utf8(text@)).contains('"'),
        !percent(encode_utf8(text@)).contains('\''),
        text_path_spec(text) == "/koreader/event/TextInput/"@ + seq![quote_for(text@)] + percent(encode_utf8(text@))
            + seq![quote_for(text@)],
{
    lemma_percent_has_no_quote(encode_utf8(text@));
}

} // verus!
