//! Page turns for the native reader, sent as X key events to the window in
//! front: which window that is (from the window manager's title of the active
//! app), and the bytes of the X11 protocol involved.

use vstd::prelude::*;
use crate::text::{chars_of, find, find_char, find_sub, find_sub_of, has_prefix, slice, starts_with, string_of};

verus! {

/// X numbers keycodes 8 higher than the kernel does.
pub const KEYCODE_OFFSET: u8 = 8;

/// The first piece of `s` split on `c`.
pub open spec fn first_piece(s: Seq<char>, c: char) -> Seq<char> {
    match find(s, c) {
        None => s,
        Some(i) => s.take(i),
    }
}

/// A window title's app prefix and id: `L:A_N:application_ID:com.x.y_M:...`
/// gives `L:A_N:application_` and `com.x.y`. Titles without a non-empty
/// prefix and id are not app windows.
pub open spec fn title_parts_spec(t: Seq<char>) -> Option<(Seq<char>, Seq<char>)> {
    match find_sub(t, "ID:"@) {
        None => None,
        Some(i) => {
            let prefix = t.take(i);
            let id = first_piece(t.skip(i + "ID:"@.len()), '_');
            if prefix.len() > 0 && id.len() > 0 { Some((prefix, id)) } else { None }
        },
    }
}

/// A window named `name` belongs to the app with this prefix and id.
pub open spec fn is_match_spec(name: Seq<char>, prefix: Seq<char>, id: Seq<char>) -> bool {
    &&& starts_with(name, prefix)
    &&& starts_with(name.skip(prefix.len() as int), "ID:"@)
    &&& first_piece(name.skip((prefix.len() + "ID:"@.len()) as int), '_') == id
}

fn first_piece_of(v: &Vec<char>, c: char) -> (r: Vec<char>)
    ensures
        r@ == first_piece(v@, c),
{
    match find_char(v, c) {
        None => slice(v, 0, v.len()),
        Some(i) => slice(v, 0, i),
    }
}

pub fn title_parts(title: &str) -> (r: Option<(String, String)>)
    ensures
        match r {
            Some((p, i)) => title_parts_spec(title@) == Some((p@, i@)),
            None => title_parts_spec(title@) is None,
        },
{
    let t = chars_of(title);
    let marker = chars_of("ID:");
    let found = find_sub_of(&t, &marker);
    if found.is_none() {
        return None;
    }
    let at = found.unwrap();
    let ml = marker.len();
    let tl = t.len();
    assert(at + ml <= tl);
    let prefix = slice(&t, 0, at);
    let rest = slice(&t, at + ml, tl);
    assert(rest@ == t@.skip(at + "ID:"@.len()));
    let id = first_piece_of(&rest, '_');
    if prefix.len() > 0 && id.len() > 0 {
        Some((string_of(&prefix), string_of(&id)))
    } else {
        None
    }
}

pub fn is_match(name: &str, prefix: &str, id: &str) -> (r: bool)
    ensures
        r == is_match_spec(name@, prefix@, id@),
{
    let n = chars_of(name);
    let p = chars_of(prefix);
    if !has_prefix(&n, &p) {
        return false;
    }
    let rest = slice(&n, p.len(), n.len());
    let marker = chars_of("ID:");
    if !has_prefix(&rest, &marker) {
        return false;
    }
    let after = slice(&rest, marker.len(), rest.len());
    assert(after@ == n@.skip((prefix@.len() + "ID:"@.len()) as int));
    crate::text::same(&first_piece_of(&after, '_'), &chars_of(id))
}

/// The X keycode for a kernel keycode, as an X key event carries it.
pub open spec fn x_keycode_spec(evdev_code: u16) -> u8 {
    ((evdev_code % 256 + KEYCODE_OFFSET) % 256) as u8
}

pub fn x_keycode(evdev_code: u16) -> (r: u8)
    ensures
        r == x_keycode_spec(evdev_code),
{
    let low: u8 = (evdev_code % 256) as u8;
    if low >= 248 { low - 248 } else { low + KEYCODE_OFFSET }
}

/// The little-endian `u16` at `at`, if the buffer holds it.
pub fn read_u16(buf: &[u8], at: usize) -> (r: Option<u16>)
    requires
        at <= usize::MAX - 2,
    ensures
        match r {
            Some(v) => at + 2 <= buf@.len() && v == buf@[at as int] + 256 * buf@[at + 1],
            None => at + 2 > buf@.len(),
        },
{
    if at + 2 > buf.len() {
        return None;
    }
    Some(buf[at] as u16 + (buf[at + 1] as u16) * 256)
}

/// The little-endian `u32` at `at`, if the buffer holds it.
pub fn read_u32(buf: &[u8], at: usize) -> (r: Option<u32>)
    requires
        at <= usize::MAX - 4,
    ensures
        match r {
            Some(v) => at + 4 <= buf@.len() && v == buf@[at as int] + 256 * buf@[at + 1] + 65536 * buf@[at + 2]
                + 16777216 * buf@[at + 3],
            None => at + 4 > buf@.len(),
        },
{
    if at + 4 > buf.len() {
        return None;
    }
    Some(buf[at] as u32 + (buf[at + 1] as u32) * 256 + (buf[at + 2] as u32) * 65536 + (buf[at + 3] as u32)
        * 16777216)
}

/// The vendor string's length rounded up to a multiple of four.
pub open spec fn padded(n: int) -> int {
    n + (4 - n % 4) % 4
}

/// Where the first screen's root window sits in the connection setup:
/// after the 32-byte fixed part, the padded vendor string and eight bytes
/// per pixmap format.
pub open spec fn root_offset(vendor_len: int, formats: int) -> int {
    32 + padded(vendor_len) + formats * 8
}

/// The root window from the X server's connection setup data, or None when
/// the data is too short.
pub fn root_window(setup: &[u8]) -> (r: Option<u32>)
    ensures
        match r {
            Some(root) => {
                &&& setup@.len() > 21
                &&& 18 <= setup@.len()
                &&& {
                    let vendor = setup@[16] + 256 * setup@[17];
                    let at = root_offset(vendor, setup@[21] as int);
                    &&& at + 4 <= setup@.len()
                    &&& root == setup@[at] + 256 * setup@[at + 1] + 65536 * setup@[at + 2] + 16777216 * setup@[at + 3]
                }
            },
            None => setup@.len() <= 21 || root_offset(setup@[16] + 256 * setup@[17], setup@[21] as int) + 4 > setup@.len(),
        },
{
    let vendor = match read_u16(setup, 16) {
        Some(v) => v as usize,
        None => return None,
    };
    if setup.len() <= 21 {
        return None;
    }
    let formats = setup[21] as usize;
    let pad = vendor + (4 - vendor % 4) % 4;
    read_u32(setup, 32 + pad + formats * 8)
}

} // verus!

verus! {

/// WM_NAME.
pub const ATOM_WM_NAME: u32 = 39;
pub const KEY_PRESS: u8 = 2;
pub const KEY_RELEASE: u8 = 3;
/// The longest window name asked for, in 4-byte units.
pub const MAX_NAME: u32 = 128;

/// A `u32` as four little-endian bytes.
pub open spec fn le32(w: u32) -> Seq<u8> {
    seq![(w % 256) as u8, ((w / 256) % 256) as u8, ((w / 65536) % 256) as u8, (w / 16777216) as u8]
}

fn push_le32(out: &mut Vec<u8>, w: u32)
    ensures
        final(out)@ == old(out)@ + le32(w),
{
    let ghost before = out@;
    out.push((w % 256) as u8);
    out.push(((w / 256) % 256) as u8);
    out.push(((w / 65536) % 256) as u8);
    out.push((w / 16777216) as u8);
    assert(out@ =~= before + le32(w));
}

fn push_zeros(out: &mut Vec<u8>, n: usize)
    ensures
        final(out)@ == old(out)@ + Seq::new(n as nat, |i: int| 0u8),
{
    let ghost before = out@;
    let mut i: usize = 0;
    while i < n
        invariant
            i <= n,
            out@ == before + Seq::new(i as nat, |k: int| 0u8),
        decreases n - i,
    {
        out.push(0);
        i = i + 1;
        assert(out@ =~= before + Seq::new(i as nat, |k: int| 0u8));
    }
}

/// QueryTree for `window`.
pub open spec fn query_tree_spec(window: u32) -> Seq<u8> {
    seq![15u8, 0u8, 2u8, 0u8] + le32(window)
}

pub fn query_tree_request(window: u32) -> (r: Vec<u8>)
    ensures
        r@ == query_tree_spec(window),
{
    let mut r: Vec<u8> = vec![15, 0, 2, 0];
    assert(r@ == seq![15u8, 0u8, 2u8, 0u8]);
    push_le32(&mut r, window);
    r
}

/// GetProperty WM_NAME of `window`, any type, up to `MAX_NAME` units.
pub open spec fn name_request_spec(window: u32) -> Seq<u8> {
    seq![20u8, 0u8, 6u8, 0u8] + le32(window) + le32(ATOM_WM_NAME) + Seq::new(8, |i: int| 0u8) + le32(MAX_NAME)
}

pub fn name_request(window: u32) -> (r: Vec<u8>)
    ensures
        r@ == name_request_spec(window),
{
    let mut r: Vec<u8> = vec![20, 0, 6, 0];
    assert(r@ == seq![20u8, 0u8, 6u8, 0u8]);
    push_le32(&mut r, window);
    push_le32(&mut r, ATOM_WM_NAME);
    push_zeros(&mut r, 8);
    push_le32(&mut r, MAX_NAME);
    r
}

/// SendEvent of a key event of `kind` for `keycode` to `window`, relative
/// to the root, with same-screen set.
pub open spec fn send_key_spec(root: u32, window: u32, keycode: u8, kind: u8) -> Seq<u8> {
    seq![25u8, 0u8, 11u8, 0u8] + le32(window) + Seq::new(4, |i: int| 0u8) + seq![kind, keycode] + Seq::new(
        6,
        |i: int| 0u8,
    ) + le32(root) + le32(window) + Seq::new(14, |i: int| 0u8) + seq![1u8, 0u8]
}

pub fn send_key_request(root: u32, window: u32, keycode: u8, kind: u8) -> (r: Vec<u8>)
    ensures
        r@ == send_key_spec(root, window, keycode, kind),
        r@.len() == 44,
{
    let mut r: Vec<u8> = vec![25, 0, 11, 0];
    assert(r@ == seq![25u8, 0u8, 11u8, 0u8]);
    push_le32(&mut r, window);
    push_zeros(&mut r, 4);
    let ghost before = r@;
    r.push(kind);
    r.push(keycode);
    assert(r@ =~= before + seq![kind, keycode]);
    push_zeros(&mut r, 6);
    push_le32(&mut r, root);
    push_le32(&mut r, window);
    push_zeros(&mut r, 14);
    let ghost before = r@;
    r.push(1);
    r.push(0);
    assert(r@ =~= before + seq![1u8, 0u8]);
    r
}

/// GetInputFocus, whose reply shows the events before it were handled.
pub fn sync_request() -> (r: Vec<u8>)
    ensures
        r@ == seq![43u8, 0u8, 1u8, 0u8],
{
    let r: Vec<u8> = vec![43, 0, 1, 0];
    assert(r@ == seq![43u8, 0u8, 1u8, 0u8]);
    r
}

/// The children a QueryTree reply lists: the count is at 16 in the 32-byte
/// head, the windows follow in the data. None when either is short.
pub fn tree_children(head: &[u8], data: &[u8]) -> (r: Option<Vec<u32>>)
    ensures
        match r {
            Some(c) => {
                &&& head@.len() >= 18
                &&& c@.len() == head@[16] + 256 * head@[17]
                &&& c@.len() * 4 <= data@.len()
                &&& forall|i: int| 0 <= i < c@.len() ==> #[trigger] c@[i] == data@[4 * i] + 256 * data@[4 * i + 1]
                    + 65536 * data@[4 * i + 2] + 16777216 * data@[4 * i + 3]
            },
            None => head@.len() < 18 || (head@[16] + 256 * head@[17]) * 4 > data@.len(),
        },
{
    let n = match read_u16(head, 16) {
        Some(n) => n as usize,
        None => return None,
    };
    if n > data.len() / 4 {
        return None;
    }
    let dl = data.len();
    assert(n * 4 <= dl);
    let mut c: Vec<u32> = Vec::new();
    let mut i: usize = 0;
    while i < n
        invariant
            i <= n,
            dl == data@.len(),
            n * 4 <= dl,
            c@.len() == i,
            forall|k: int| 0 <= k < i ==> #[trigger] c@[k] == data@[4 * k] + 256 * data@[4 * k + 1] + 65536
                * data@[4 * k + 2] + 16777216 * data@[4 * k + 3],
        decreases n - i,
    {
        assert(i * 4 + 4 <= n * 4) by (nonlinear_arith)
            requires
                i < n,
        ;
        let w = match read_u32(data, i * 4) {
            Some(w) => w,
            None => return None,
        };
        c.push(w);
        i = i + 1;
    }
    Some(c)
}

} // verus!
