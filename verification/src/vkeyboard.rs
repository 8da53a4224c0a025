//! The virtual keyboard the daemon creates through uinput: which codes it
//! offers, and reading the kernel's `major:minor` device numbers.

use vstd::prelude::*;
use crate::text::{chars_of, find, find_char, slice, string_of, trim, trimmed};

verus! {

/// The `i`-th code the keyboard offers: every KEY_* code, skipping the
/// BTN_* ranges (0x100-0x15f mouse and gamepad, 0x2c0 on trigger-happy) so
/// the device enumerates as a plain keyboard.
pub open spec fn offered(i: int) -> u32 {
    if i < 255 { (i + 1) as u32 } else { (i - 255 + 0x160) as u32 }
}

pub fn supported_keys() -> (r: Vec<u32>)
    ensures
        r@.len() == 255 + (0x2c0 - 0x160),
        forall|i: int| 0 <= i < r@.len() ==> r@[i] == offered(i),
{
    let mut r: Vec<u32> = Vec::new();
    let mut c: u32 = 1;
    while c < 0x100
        invariant
            1 <= c <= 0x100,
            r@.len() == c - 1,
            forall|i: int| 0 <= i < r@.len() ==> r@[i] == offered(i),
        decreases 0x100 - c,
    {
        r.push(c);
        c = c + 1;
    }
    let mut c: u32 = 0x160;
    while c < 0x2c0
        invariant
            0x160 <= c <= 0x2c0,
            r@.len() == 255 + c - 0x160,
            forall|i: int| 0 <= i < r@.len() ==> r@[i] == offered(i),
        decreases 0x2c0 - c,
    {
        r.push(c);
        c = c + 1;
    }
    r
}

/// The `major:minor` pair of a sysfs `dev` file.
pub open spec fn major_minor_spec(dev: Seq<char>) -> Option<(Seq<char>, Seq<char>)> {
    let t = trim(dev);
    match find(t, ':') {
        None => None,
        Some(i) => Some((t.take(i), t.skip(i + 1))),
    }
}

pub fn major_minor(dev: &str) -> (r: Option<(String, String)>)
    ensures
        match r {
            Some((a, b)) => major_minor_spec(dev@) == Some((a@, b@)),
            None => major_minor_spec(dev@) is None,
        },
{
    let t = trimmed(&chars_of(dev));
    match find_char(&t, ':') {
        None => None,
        Some(i) => Some((string_of(&slice(&t, 0, i)), string_of(&slice(&t, i + 1, t.len())))),
    }
}

} // verus!
