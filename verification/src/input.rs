//! Which input node a device config refers to.

use vstd::prelude::*;
use crate::keys::{axes_in, axis_set_codes, codes_in, key_set_codes};
use crate::text::{chars_of, has_prefix, same, starts_with, upper, upper_char};

verus! {

/// The address part of a uniq (everything before the first `/`), upper-cased.
pub open spec fn bare(s: Seq<char>) -> Seq<char>
    decreases s.len(),
{
    if s.len() == 0 || s[0] == '/' {
        Seq::empty()
    } else {
        seq![upper(s[0])] + bare(s.drop_first())
    }
}

fn bare_of(s: &Vec<char>) -> (r: Vec<char>)
    ensures
        r@ == bare(s@),
{
    let mut r: Vec<char> = Vec::new();
    let mut i: usize = 0;
    assert(s@.skip(0) == s@);
    while i < s.len() && s[i] != '/'
        invariant
            i <= s.len(),
            forall|k: int| 0 <= k < i ==> s@[k] != '/',
            bare(s@) == r@ + bare(s@.skip(i as int)),
        decreases s.len() - i,
    {
        assert(s@.skip(i as int).drop_first() == s@.skip(i + 1));
        r.push(upper_char(s[i]));
        i = i + 1;
    }
    assert(bare(s@.skip(i as int)) == Seq::<char>::empty());
    assert(r@ + Seq::<char>::empty() == r@);
    r
}

/// A Bluetooth node's uniq carries the address type as a suffix
/// ("E0:F6:B5:BC:1C:7F/P"), but configs hold the bare MAC in whatever case
/// the user typed. Compare only the address part, case-insensitively.
pub open spec fn uniq_matches_spec(node: Seq<char>, want: Seq<char>) -> bool {
    want.len() > 0 && bare(node) == bare(want)
}

pub fn uniq_matches(node: &str, want: &str) -> (r: bool)
    ensures
        r == uniq_matches_spec(node@, want@),
{
    let w = chars_of(want);
    if w.len() == 0 {
        return false;
    }
    let a = bare_of(&chars_of(node));
    let b = bare_of(&w);
    if a.len() != b.len() {
        assert(a@.len() != b@.len());
        return false;
    }
    let mut i: usize = 0;
    while i < a.len()
        invariant
            i <= a.len() == b.len(),
            a@ == bare(node@),
            b@ == bare(want@),
            want@.len() > 0,
            forall|k: int| 0 <= k < i ==> a@[k] == b@[k],
        decreases a.len() - i,
    {
        if a[i] != b[i] {
            assert(a@[i as int] != b@[i as int]);
            return false;
        }
        i = i + 1;
    }
    assert(a@ =~= b@);
    true
}

} // verus!

verus! {

/// Mouse buttons, BTN_LEFT through BTN_TASK.
pub open spec fn is_mouse_button(code: u16) -> bool {
    0x110 <= code <= 0x117
}

/// How many of `codes` are not mouse buttons.
pub open spec fn count_mappable(codes: Seq<u16>) -> nat
    decreases codes.len(),
{
    if codes.len() == 0 {
        0
    } else {
        count_mappable(codes.drop_last()) + if is_mouse_button(codes.last()) { 0nat } else { 1nat }
    }
}

fn count_mappable_of(codes: &Vec<u16>) -> (r: usize)
    ensures
        r == count_mappable(codes@),
{
    let mut n: usize = 0;
    let mut i: usize = 0;
    while i < codes.len()
        invariant
            i <= codes.len(),
            n == count_mappable(codes@.take(i as int)),
            n <= i,
        decreases codes.len() - i,
    {
        assert(codes@.take(i + 1).drop_last() == codes@.take(i as int));
        if !(0x110 <= codes[i] && codes[i] <= 0x117) {
            n = n + 1;
        }
        i = i + 1;
    }
    assert(codes@.take(codes.len() as int) == codes@);
    n
}

/// Keys a node offers that a mapping can use: everything but the mouse
/// buttons, so a mouse node loses to the keyboard node of the same device.
pub fn mappable_keys(keys: Option<&evdev::AttributeSetRef<evdev::Key>>) -> (r: usize)
    ensures
        r == match keys {
            Some(s) => count_mappable(key_set_codes(s)),
            None => 0,
        },
{
    match keys {
        Some(s) => count_mappable_of(&codes_in(s)),
        None => 0,
    }
}

/// A pad: it has BTN_SOUTH, or a hat (ABS_HAT0X).
pub fn is_gamepad(
    keys: Option<&evdev::AttributeSetRef<evdev::Key>>,
    axes: Option<&evdev::AttributeSetRef<evdev::AbsoluteAxisType>>,
) -> (r: bool)
    ensures
        r == ((keys matches Some(s) && key_set_codes(s).contains(0x130u16))
            || (axes matches Some(a) && axis_set_codes(a).contains(0x10u16))),
{
    let south = match keys {
        Some(s) => contains_code(&codes_in(s), 0x130),
        None => false,
    };
    let hat = match axes {
        Some(a) => contains_code(&axes_in(a), 0x10),
        None => false,
    };
    south || hat
}

/// A touch device: it reports BTN_TOUCH, so its ABS_X/ABS_Y are a contact
/// rather than a stick.
pub fn is_touch_device(keys: Option<&evdev::AttributeSetRef<evdev::Key>>) -> (r: bool)
    ensures
        r == (keys matches Some(s) && key_set_codes(s).contains(0x14au16)),
{
    match keys {
        Some(s) => contains_code(&codes_in(s), 0x14a),
        None => false,
    }
}

fn contains_code(codes: &Vec<u16>, c: u16) -> (r: bool)
    ensures
        r == codes@.contains(c),
{
    let mut i: usize = 0;
    while i < codes.len()
        invariant
            i <= codes.len(),
            forall|k: int| 0 <= k < i ==> codes@[k] != c,
        decreases codes.len() - i,
    {
        if codes[i] == c {
            assert(codes@[i as int] == c);
            return true;
        }
        i = i + 1;
    }
    false
}

/// An evdev event node, by its file name under `/dev/input`.
pub fn is_event_node(file_name: &str) -> (r: bool)
    ensures
        r == starts_with(file_name@, "event"@),
{
    has_prefix(&chars_of(file_name), &chars_of("event"))
}

/// Our own virtual keyboard's name: never read from.
pub open spec fn own_name() -> Seq<char> {
    "kindle-button-mapper"@
}

/// Whether a node with this name is our own virtual keyboard.
pub fn is_own_node(name: &str) -> (r: bool)
    ensures
        r == (name@ == own_name()),
{
    same(&chars_of(name), &chars_of("kindle-button-mapper"))
}

/// Which device a worker reads from: by uniq (a MAC, stable across renames
/// and reconnects) when one is set, else by name.
pub struct InputHandler {
    pub device_name: Option<String>,
    pub device_uniq: Option<String>,
    pub grab: bool,
}

/// What an input node reports about itself, and how many mappable keys it has.
pub struct Node {
    pub file_name: String,
    pub name: String,
    pub uniq: String,
    pub mappable: usize,
}

pub open spec fn set_nonempty(o: Option<String>) -> bool {
    o matches Some(s) && s@.len() > 0
}

impl InputHandler {
    pub fn new(device_name: Option<String>, device_uniq: Option<String>, grab: bool) -> (r: Self)
        ensures
            r.device_name == device_name,
            r.device_uniq == device_uniq,
            r.grab == grab,
    {
        InputHandler { device_name, device_uniq, grab }
    }

    /// The config names a device at all: a non-empty uniq or name.
    pub open spec fn spec_has_identity(&self) -> bool {
        set_nonempty(self.device_uniq) || set_nonempty(self.device_name)
    }

    pub fn has_identity(&self) -> (r: bool)
        ensures
            r == self.spec_has_identity(),
    {
        let u = match &self.device_uniq {
            Some(u) => chars_of(u.as_str()).len() > 0,
            None => false,
        };
        let n = match &self.device_name {
            Some(n) => chars_of(n.as_str()).len() > 0,
            None => false,
        };
        u || n
    }

    /// Whether a node with this name and uniq is the configured device.
    pub open spec fn spec_matches(&self, name: Seq<char>, uniq: Seq<char>) -> bool {
        if name == own_name() {
            false
        } else if set_nonempty(self.device_uniq) {
            uniq_matches_spec(uniq, self.device_uniq->0@)
        } else if set_nonempty(self.device_name) {
            name == self.device_name->0@
        } else {
            true
        }
    }

    pub fn matches_device(&self, name: &str, uniq: &str) -> (r: bool)
        ensures
            r == self.spec_matches(name@, uniq@),
    {
        let n = chars_of(name);
        if same(&n, &chars_of("kindle-button-mapper")) {
            return false;
        }
        if let Some(u) = &self.device_uniq {
            if chars_of(u.as_str()).len() > 0 {
                return uniq_matches(uniq, u.as_str());
            }
        }
        if let Some(want) = &self.device_name {
            let w = chars_of(want.as_str());
            if w.len() > 0 {
                return same(&n, &w);
            }
        }
        true
    }

    /// A node worth opening: an `event*` node that is the configured device.
    pub open spec fn eligible(&self, node: Node) -> bool {
        starts_with(node.file_name@, "event"@) && self.spec_matches(node.name@, node.uniq@)
    }

    /// Among the nodes found, the one to read: the eligible node with the
    /// most mappable keys, the first of them on a tie.
    pub fn pick_node(&self, nodes: &Vec<Node>) -> (r: Option<usize>)
        ensures
            match r {
                Some(i) => {
                    &&& i < nodes@.len()
                    &&& self.eligible(nodes@[i as int])
                    &&& forall|j: int| 0 <= j < i && self.eligible(nodes@[j]) ==> nodes@[j].mappable < nodes@[i as int].mappable
                    &&& forall|j: int| i < j < nodes@.len() && self.eligible(nodes@[j]) ==> nodes@[j].mappable <= nodes@[i as int].mappable
                },
                None => forall|j: int| 0 <= j < nodes@.len() ==> !self.eligible(#[trigger] nodes@[j]),
            },
    {
        let mut best: Option<usize> = None;
        let mut i: usize = 0;
        let event = chars_of("event");
        while i < nodes.len()
            invariant
                i <= nodes.len(),
                event@ == "event"@,
                match best {
                    Some(b) => {
                        &&& b < i
                        &&& self.eligible(nodes@[b as int])
                        &&& forall|j: int| 0 <= j < b && self.eligible(nodes@[j]) ==> nodes@[j].mappable < nodes@[b as int].mappable
                        &&& forall|j: int| b < j < i && self.eligible(nodes@[j]) ==> nodes@[j].mappable <= nodes@[b as int].mappable
                    },
                    None => forall|j: int| 0 <= j < i ==> !self.eligible(#[trigger] nodes@[j]),
                },
            decreases nodes.len() - i,
        {
            let node = &nodes[i];
            let ok = has_prefix(&chars_of(node.file_name.as_str()), &event)
                && self.matches_device(node.name.as_str(), node.uniq.as_str());
            assert(ok == self.eligible(nodes@[i as int]));
            if ok {
                let better = match best {
                    Some(b) => node.mappable > nodes[b].mappable,
                    None => true,
                };
                if better {
                    best = Some(i);
                }
            }
            i = i + 1;
        }
        best
    }
}

} // verus!


verus! {

/// Matching by uniq goes both ways: which side carries the address-type
/// suffix, and in which case, does not matter.
pub proof fn law_uniq_match_is_symmetric(a: Seq<char>, b: Seq<char>)
    requires
        a.len() > 0,
        b.len() > 0,
    ensures
        uniq_matches_spec(a, b) == uniq_matches_spec(b, a),
{
}

} // verus!
