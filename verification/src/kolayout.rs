//! Layout translation for KOReader. KOReader reads the keyboard as raw evdev
//! and maps it through a hardcoded US table, so the layout the user chose
//! never reaches it. The layout comes from the XKB keymap X is running
//! (`xkbcomp` prints every level as text): keys the layout types differently
//! go to KOReader as text, keys it leaves alone relay as keycodes, which keeps
//! letters, arrows and shortcuts working unchanged.

use vstd::prelude::*;
use std::collections::{HashMap, HashSet};
use crate::keysym::{self, spec_compose, spec_dead, spec_to_char};
use crate::text::{
    same, slice,
    between, between_chars, chars_of, has_prefix, parse_u16, parse_u16_of, rfind, rfind_char, second_piece,
    second_piece_of, split, split_on, starts_with, string_of, strip_end, stripped_end, trim, trimmed,
    upper, upper_char, views,
};

verus! {

broadcast use vstd::std_specs::hash::group_hash_axioms;

pub const KEY_LEFTSHIFT: u16 = 42;
pub const KEY_RIGHTSHIFT: u16 = 54;
pub const KEY_RIGHTALT: u16 = 100;
pub const KEY_SPACE: u16 = 57;
/// X numbers keycodes 8 higher than the kernel does.
pub const KEYCODE_OFFSET: u16 = 8;

/// What one level of one key does.
#[derive(PartialEq, Debug)]
pub enum Level {
    /// Relayed as a keycode. KOReader already types these correctly, but the
    /// character is kept: it is still what a pending dead key composes with.
    Pass(Option<char>),
    Text(String),
    /// The character it types alone, and its combining mark.
    Dead(char, char),
}

/// What the scan of an `xkbcomp -xkb` dump has gathered so far: keycodes by
/// key name from `xkb_keycodes`, group-1 symbol lists by key name from
/// `xkb_symbols`, which section it is in, and the key whose symbols are
/// awaited.
pub struct Scan {
    pub codes: Map<Seq<char>, u16>,
    pub symbols: Map<Seq<char>, Seq<Seq<char>>>,
    pub in_symbols: bool,
    pub current: Seq<char>,
}

pub open spec fn scan_start() -> Scan {
    Scan { codes: Map::empty(), symbols: Map::empty(), in_symbols: false, current: Seq::empty() }
}

/// The key name a `key <NAME> ...` line opens, or nothing.
pub open spec fn opened_key(t: Seq<char>) -> Seq<char> {
    match between(t.skip("key "@.len() as int), '<', '>') {
        Some(n) => n,
        None => Seq::empty(),
    }
}

/// The text after the last `=`, or the whole line.
pub open spec fn after_last_eq(t: Seq<char>) -> Seq<char> {
    match rfind(t, '=') {
        Some(i) => t.skip(i + 1),
        None => t,
    }
}

/// One line of the dump. Two shapes matter, and neither collides with the
/// other sections: `<AC10> = 47;` in `xkb_keycodes`, and
/// `key <AC10> { ... [ ccedilla, ... ] }` (or its `symbols[Group1]= [ ... ]`
/// line) in `xkb_symbols`. Later groups are ignored: KOReader has no group
/// toggle.
pub open spec fn scan_line(st: Scan, line: Seq<char>) -> Scan {
    let t = trim(line);
    if starts_with(t, "xkb_"@) {
        Scan {
            codes: st.codes,
            symbols: st.symbols,
            in_symbols: starts_with(t.skip("xkb_"@.len() as int), "symbols"@),
            current: st.current,
        }
    } else if !st.in_symbols {
        match (between(t, '<', '>'), second_piece(t, '=')) {
            (Some(name), Some(value)) => match parse_u16(strip_end(trim(value), ';')) {
                Some(code) => Scan {
                    codes: st.codes.insert(name, code),
                    symbols: st.symbols,
                    in_symbols: st.in_symbols,
                    current: st.current,
                },
                None => st,
            },
            _ => st,
        }
    } else {
        let is_key = starts_with(t, "key "@);
        let cur = if is_key { opened_key(t) } else { st.current };
        if cur.len() > 0 && (is_key || starts_with(t, "symbols[Group1]"@)) {
            match between(after_last_eq(t), '[', ']') {
                Some(list) => Scan {
                    codes: st.codes,
                    symbols: st.symbols.insert(cur, split(list, ',').map_values(|p: Seq<char>| trim(p))),
                    in_symbols: st.in_symbols,
                    current: Seq::empty(),
                },
                None => Scan { codes: st.codes, symbols: st.symbols, in_symbols: st.in_symbols, current: cur },
            }
        } else {
            Scan { codes: st.codes, symbols: st.symbols, in_symbols: st.in_symbols, current: cur }
        }
    }
}

/// The scan over a sequence of lines, first to last.
pub open spec fn scan(lines: Seq<Seq<char>>) -> Scan
    decreases lines.len(),
{
    if lines.len() == 0 {
        scan_start()
    } else {
        scan_line(scan(lines.drop_last()), lines.last())
    }
}

/// The scan of a whole dump, line by line.
pub open spec fn scan_dump(dump: Seq<char>) -> Scan {
    scan(split(dump, '\n'))
}

/// Key `name` of the scan lands on kernel keycode `code` and claims some level.
pub open spec fn claims_from(st: Scan, name: Seq<char>, code: u16) -> bool {
    &&& st.symbols.contains_key(name)
    &&& st.codes.contains_key(name)
    &&& st.codes[name] >= KEYCODE_OFFSET
    &&& st.codes[name] - KEYCODE_OFFSET == code
    &&& claimed(levels_spec(code, st.symbols[name]))
}

/// The table a scan yields: a kernel keycode has an entry exactly when some
/// key name with both a keycode and a symbol list lands on it and claims a
/// level, and the entry is that name's levels.
pub open spec fn table_from(st: Scan, t: Map<u16, Seq<LevelV>>) -> bool {
    &&& forall|c: u16| t.contains_key(c) <==> exists|n: Seq<char>| claims_from(st, n, c)
    &&& forall|c: u16| #[trigger] t.contains_key(c) ==> exists|n: Seq<char>|
        claims_from(st, n, c) && t[c] == levels_spec(c, st.symbols[n])
}

/// Key names with values, newest value per name.
struct Named<V> {
    names: Vec<Vec<char>>,
    vals: Vec<V>,
}

impl<V> Named<V> {
    spec fn has(&self, n: Seq<char>) -> bool {
        exists|i: int| 0 <= i < self.names.len() && self.names@[i]@ == n
    }

    /// The table holds exactly the map `m`, each value seen through `f`.
    spec fn holds<W>(&self, m: Map<Seq<char>, W>, f: spec_fn(V) -> W) -> bool {
        &&& self.names.len() == self.vals.len()
        &&& forall|i: int, j: int|
            0 <= i < j < self.names.len() ==> self.names@[i]@ != self.names@[j]@
        &&& forall|i: int| 0 <= i < self.names.len() ==> {
            &&& m.contains_key(#[trigger] self.names@[i]@)
            &&& m[self.names@[i]@] == f(self.vals@[i])
        }
        &&& forall|n: Seq<char>| #[trigger] m.contains_key(n) ==> self.has(n)
    }

    fn new<W>(Ghost(f): Ghost<spec_fn(V) -> W>) -> (r: Self)
        ensures
            r.holds(Map::<Seq<char>, W>::empty(), f),
    {
        Named { names: Vec::new(), vals: Vec::new() }
    }

    fn position(&self, name: &Vec<char>) -> (r: Option<usize>)
        requires
            self.names.len() == self.vals.len(),
        ensures
            match r {
                Some(i) => i < self.names.len() && self.names@[i as int]@ == name@,
                None => !self.has(name@),
            },
    {
        let mut i: usize = 0;
        while i < self.names.len()
            invariant
                i <= self.names.len(),
                forall|k: int| 0 <= k < i ==> self.names@[k]@ != name@,
            decreases self.names.len() - i,
        {
            if same(&self.names[i], name) {
                return Some(i);
            }
            i = i + 1;
        }
        None
    }

    fn put<W>(
        &mut self,
        name: Vec<char>,
        val: V,
        Ghost(m): Ghost<Map<Seq<char>, W>>,
        Ghost(f): Ghost<spec_fn(V) -> W>,
    )
        requires
            old(self).holds(m, f),
        ensures
            final(self).holds(m.insert(name@, f(val)), f),
    {
        let ghost n = name@;
        match self.position(&name) {
            Some(i) => {
                self.vals.set(i, val);
                assert forall|k: Seq<char>| #[trigger] m.insert(n, f(val)).contains_key(k) implies self.has(k) by {
                    if k != n {
                        assert(m.contains_key(k));
                    } else {
                        assert(self.names@[i as int]@ == k);
                    }
                }
                assert forall|a: int| 0 <= a < self.names.len() implies {
                    &&& m.insert(n, f(val)).contains_key(#[trigger] self.names@[a]@)
                    &&& m.insert(n, f(val))[self.names@[a]@] == f(self.vals@[a])
                } by {
                    if a != i {
                        assert(self.names@[a]@ != n);
                    }
                }
            },
            None => {
                let ghost old_names = self.names@;
                self.names.push(name);
                self.vals.push(val);
                let ghost last = self.names.len() - 1;
                assert(self.names@[last]@ == n);
                assert forall|k: Seq<char>| #[trigger] m.insert(n, f(val)).contains_key(k) implies self.has(k) by {
                    if k != n {
                        assert(m.contains_key(k));
                        let j = choose|j: int| 0 <= j < old_names.len() && old_names[j]@ == k;
                        assert(self.names@[j]@ == k);
                    }
                }
                assert forall|a: int, b: int| 0 <= a < b < self.names.len() implies
                    self.names@[a]@ != self.names@[b]@ by {
                    if b == last {
                        assert(old_names[a]@ != n);
                    }
                }
            },
        }
    }

    fn get<W>(&self, name: &Vec<char>, Ghost(m): Ghost<Map<Seq<char>, W>>, Ghost(f): Ghost<spec_fn(V) -> W>) -> (r: Option<&V>)
        requires
            self.holds(m, f),
        ensures
            match r {
                Some(v) => m.contains_key(name@) && m[name@] == f(*v),
                None => !m.contains_key(name@),
            },
    {
        match self.position(name) {
            Some(i) => Some(&self.vals[i]),
            None => None,
        }
    }
}

/// A level as a mathematical value.
pub enum LevelV {
    Pass(Option<char>),
    Text(Seq<char>),
    Dead(char, char),
}

impl View for Level {
    type V = LevelV;

    open spec fn view(&self) -> LevelV {
        match self {
            Level::Pass(c) => LevelV::Pass(*c),
            Level::Text(t) => LevelV::Text(t@),
            Level::Dead(s, m) => LevelV::Dead(*s, *m),
        }
    }
}

impl LevelV {
    pub open spec fn is_pass(self) -> bool {
        self is Pass
    }

    /// The character a level types, which a pending dead key composes with.
    pub open spec fn char_of(self) -> Option<char> {
        match self {
            LevelV::Pass(c) => c,
            LevelV::Text(t) => if t.len() > 0 { Some(t[0]) } else { None },
            LevelV::Dead(_, _) => None,
        }
    }
}

impl Level {
    pub fn is_pass(&self) -> (r: bool)
        ensures
            r == self@.is_pass(),
    {
        match self {
            Level::Pass(_) => true,
            _ => false,
        }
    }

    pub fn char(&self) -> (r: Option<char>)
        ensures
            r == self@.char_of(),
    {
        match self {
            Level::Pass(c) => *c,
            Level::Text(t) => {
                let v = chars_of(t.as_str());
                if v.len() > 0 {
                    Some(v[0])
                } else {
                    None
                }
            },
            Level::Dead(_, _) => None,
        }
    }

    /// An equal copy.
    pub fn copied(&self) -> (r: Level)
        ensures
            r == *self,
    {
        match self {
            Level::Pass(c) => Level::Pass(*c),
            Level::Text(t) => Level::Text(t.clone()),
            Level::Dead(s, m) => Level::Dead(*s, *m),
        }
    }
}

/// What a US keyboard types at this keycode, which is exactly what KOReader's
/// hardcoded table types.
pub open spec fn us_char(code: u16) -> Option<char> {
    if 2 <= code < 12 {
        Some(seq!['1', '2', '3', '4', '5', '6', '7', '8', '9', '0'][code - 2])
    } else if 16 <= code < 26 {
        Some(seq!['q', 'w', 'e', 'r', 't', 'y', 'u', 'i', 'o', 'p'][code - 16])
    } else if 30 <= code < 39 {
        Some(seq!['a', 's', 'd', 'f', 'g', 'h', 'j', 'k', 'l'][code - 30])
    } else if 44 <= code < 51 {
        Some(seq!['z', 'x', 'c', 'v', 'b', 'n', 'm'][code - 44])
    } else {
        None
    }
}

pub fn us_char_of(code: u16) -> (r: Option<char>)
    ensures
        r == us_char(code),
{
    let digits = ['1', '2', '3', '4', '5', '6', '7', '8', '9', '0'];
    let top = ['q', 'w', 'e', 'r', 't', 'y', 'u', 'i', 'o', 'p'];
    let home = ['a', 's', 'd', 'f', 'g', 'h', 'j', 'k', 'l'];
    let bottom = ['z', 'x', 'c', 'v', 'b', 'n', 'm'];
    if 2 <= code && code < 12 {
        Some(digits[(code - 2) as usize])
    } else if 16 <= code && code < 26 {
        Some(top[(code - 16) as usize])
    } else if 30 <= code && code < 39 {
        Some(home[(code - 30) as usize])
    } else if 44 <= code && code < 51 {
        Some(bottom[(code - 44) as usize])
    } else {
        None
    }
}

/// `char::is_control`: the C0 and C1 control characters.
pub open spec fn is_control(c: char) -> bool {
    (c as u32) <= 0x1f || (0x7f <= (c as u32) && (c as u32) <= 0x9f)
}

pub open spec fn is_lower(c: char) -> bool {
    'a' <= c <= 'z'
}

/// Whether KOReader's own table already types `ch` at level `idx` of `code`:
/// the letters where the layout agrees with US and the plain digits.
pub open spec fn known_to_koreader(code: u16, idx: int, ch: char) -> bool {
    if idx == 0 {
        us_char(code) == Some(ch)
    } else if idx == 1 {
        us_char(code) matches Some(u) && is_lower(u) && ch == upper(u)
    } else {
        false
    }
}

/// What level `idx` of `code` does when the keymap puts keysym `sym` there.
/// A level KOReader already types correctly is relayed rather than sent, so
/// its own shortcuts keep working; so is whitespace and every control
/// character (Delete would otherwise type U+007F instead of deleting).
pub open spec fn resolve_spec(code: u16, idx: int, sym: Seq<char>) -> LevelV {
    match spec_dead(sym) {
        Some((s, m)) => LevelV::Dead(s, m),
        None => match spec_to_char(sym) {
            None => LevelV::Pass(None),
            Some(ch) => if known_to_koreader(code, idx, ch) || ch <= ' ' || is_control(ch) {
                LevelV::Pass(Some(ch))
            } else {
                LevelV::Text(seq![ch])
            },
        },
    }
}

pub fn resolve(code: u16, idx: usize, sym: &Vec<char>) -> (r: Level)
    ensures
        r@ == resolve_spec(code, idx as int, sym@),
{
    if let Some(d) = keysym::dead(sym) {
        return Level::Dead(d.0, d.1);
    }
    let ch = match keysym::to_char(sym) {
        Some(c) => c,
        None => return Level::Pass(None),
    };
    let us = us_char_of(code);
    let known = if idx == 0 {
        match us {
            Some(u) => u == ch,
            None => false,
        }
    } else if idx == 1 {
        match us {
            Some(u) => 'a' <= u && u <= 'z' && ch == upper_char(u),
            None => false,
        }
    } else {
        false
    };
    let u = ch as u32;
    if known || ch <= ' ' || u <= 0x1f || (0x7f <= u && u <= 0x9f) {
        Level::Pass(Some(ch))
    } else {
        let v = vec![ch];
        assert(v@ == seq![ch]);
        Level::Text(string_of(&v))
    }
}

/// The four levels of a key whose symbol list is `list`; levels the list
/// does not reach are relayed.
pub open spec fn levels_spec(code: u16, list: Seq<Seq<char>>) -> Seq<LevelV> {
    Seq::new(4, |i: int| if i < list.len() { resolve_spec(code, i, list[i]) } else { LevelV::Pass(None) })
}

/// Some level of the key does something KOReader needs.
pub open spec fn claimed(levels: Seq<LevelV>) -> bool {
    exists|i: int| 0 <= i < levels.len() && !(#[trigger] levels[i]).is_pass()
}

pub open spec fn level_views(a: [Level; 4]) -> Seq<LevelV> {
    a@.map_values(|l: Level| l@)
}

/// Which level the modifiers select.
pub open spec fn level_index(shift: bool, altgr: bool) -> int {
    (if shift { 1int } else { 0int }) + (if altgr { 2int } else { 0int })
}

/// What a pending dead key composes with `base`.
pub open spec fn composition(spacing: char, mark: char, base: char) -> Seq<char> {
    match spec_compose(base, mark) {
        Some(made) => seq![made],
        None => seq![spacing, base],
    }
}

/// What `consume` asks of its caller.
#[derive(PartialEq, Debug)]
pub enum KeyAction {
    /// Relay the key as a keycode.
    Relay,
    /// The key went to KOReader already; do not relay it.
    Swallow,
    /// Send this text to KOReader, then report the outcome to `typed`.
    Type(String),
    /// Send this text to KOReader, whatever the outcome, and relay the key.
    Flush(String),
    /// A dead key: if KOReader is reachable, report so to `arm`; the key is
    /// relayed when it is not.
    Arm(char, char),
}

/// Keyboard translation state for KOReader.
pub struct KoLayout {
    pub keys: HashMap<u16, [Level; 4]>,
    pub shift: bool,
    pub altgr: bool,
    pub pending: Option<(char, char)>,
    /// Codes whose press we took, so their release is not relayed either.
    pub held: HashSet<u16>,
}

/// What one key event does to the layout state and asks of the caller
/// (see `KoLayout::consume`).
pub open spec fn consume_post(pre: KoLayout, code: u16, value: i32, post: KoLayout, r: KeyAction) -> bool {
    &&& post.keys@ == pre.keys@
    &&& code == KEY_LEFTSHIFT || code == KEY_RIGHTSHIFT ==> {
        &&& r == KeyAction::Relay
        &&& post.shift == (value != 0)
        &&& post.altgr == pre.altgr
        &&& post.pending == pre.pending
        &&& post.held@ == pre.held@
    }
    &&& code == KEY_RIGHTALT ==> {
        &&& r == KeyAction::Relay
        &&& post.altgr == (value != 0)
        &&& post.shift == pre.shift
        &&& post.pending == pre.pending
        &&& post.held@ == pre.held@
    }
    &&& code != KEY_LEFTSHIFT && code != KEY_RIGHTSHIFT && code != KEY_RIGHTALT ==> {
        &&& post.shift == pre.shift
        &&& post.altgr == pre.altgr
        &&& value == 0 ==> {
            &&& r == (if pre.held@.contains(code) { KeyAction::Swallow } else { KeyAction::Relay })
            &&& post.held@ == pre.held@.remove(code)
            &&& post.pending == pre.pending
        }
        &&& value != 0 ==> post.held@ == pre.held@
        &&& value != 0 && pre.pending is Some ==> {
            let (spacing, mark) = pre.pending.unwrap();
            &&& post.pending is None
            &&& match pre.compose_spec(spacing, mark, code) {
                Some(t) => r matches KeyAction::Type(s) && s@ == t,
                None => r matches KeyAction::Flush(s) && s@ == seq![spacing],
            }
        }
        &&& value != 0 && pre.pending is None ==> {
            &&& post.pending is None
            &&& match pre.pick(code) {
                LevelV::Text(t) => r matches KeyAction::Type(s) && s@ == t,
                LevelV::Dead(s, m) => r == KeyAction::Arm(s, m),
                LevelV::Pass(_) => r == KeyAction::Relay,
            }
        }
    }
}

/// The outcome of a `Type` reported back (see `KoLayout::typed`).
pub open spec fn typed_post(pre: KoLayout, code: u16, sent: bool, post: KoLayout, r: bool) -> bool {
    &&& r == sent
    &&& post.keys@ == pre.keys@
    &&& post.shift == pre.shift
    &&& post.altgr == pre.altgr
    &&& post.pending == pre.pending
    &&& post.held@ == (if sent { pre.held@.insert(code) } else { pre.held@ })
}

/// Whether KOReader was reachable for an `Arm`, reported back (see
/// `KoLayout::arm`).
pub open spec fn arm_post(pre: KoLayout, code: u16, spacing: char, mark: char, reachable: bool, post: KoLayout, r: bool) -> bool {
    &&& r == reachable
    &&& post.keys@ == pre.keys@
    &&& post.shift == pre.shift
    &&& post.altgr == pre.altgr
    &&& post.pending == (if reachable { Some((spacing, mark)) } else { pre.pending })
    &&& post.held@ == (if reachable { pre.held@.insert(code) } else { pre.held@ })
}

impl KoLayout {
    /// The layout table as levels per keycode.
    pub open spec fn table(&self) -> Map<u16, Seq<LevelV>> {
        self.keys@.map_values(|a: [Level; 4]| level_views(a))
    }

    /// The level the current modifiers select on `code`.
    pub open spec fn pick(&self, code: u16) -> LevelV {
        if self.keys@.contains_key(code) {
            level_views(self.keys@[code])[level_index(self.shift, self.altgr)]
        } else {
            LevelV::Pass(None)
        }
    }

    /// What a dead key produces when `code` follows it, or None when `code`
    /// types nothing to put the accent on.
    pub open spec fn compose_spec(&self, spacing: char, mark: char, code: u16) -> Option<Seq<char>> {
        if code == KEY_SPACE {
            Some(seq![spacing])
        } else {
            match self.pick(code).char_of() {
                None => None,
                Some(base) => Some(composition(spacing, mark, base)),
            }
        }
    }

    pub fn level(&self, code: u16) -> (r: Level)
        ensures
            r@ == self.pick(code),
    {
        let idx: usize = (if self.shift { 1usize } else { 0usize }) + (if self.altgr { 2usize } else { 0usize });
        match self.keys.get(&code) {
            Some(l) => {
                let r = l[idx].copied();
                assert(level_views(*l)[idx as int] == l@[idx as int]@);
                r
            },
            None => Level::Pass(None),
        }
    }

    pub fn compose(&self, spacing: char, mark: char, code: u16) -> (r: Option<String>)
        ensures
            match r {
                Some(t) => self.compose_spec(spacing, mark, code) == Some(t@),
                None => self.compose_spec(spacing, mark, code) is None,
            },
    {
        if code == KEY_SPACE {
            let v = vec![spacing];
            assert(v@ == seq![spacing]);
            return Some(string_of(&v));
        }
        let base = match self.level(code).char() {
            Some(b) => b,
            None => return None,
        };
        let v = match keysym::compose(base, mark) {
            Some(made) => vec![made],
            None => vec![spacing, base],
        };
        assert(v@ == composition(spacing, mark, base));
        Some(string_of(&v))
    }

    /// Takes one key event (`value` 1 press, 2 repeat, 0 release) and says
    /// what the caller must do with it. Shift and AltGr are tracked here but
    /// still relayed: KOReader needs them itself for the letters that go
    /// through as keycodes.
    pub fn consume(&mut self, code: u16, value: i32) -> (r: KeyAction)
        ensures
            consume_post(*old(self), code, value, *final(self), r),
    {
        if code == KEY_LEFTSHIFT || code == KEY_RIGHTSHIFT {
            self.shift = value != 0;
            return KeyAction::Relay;
        }
        if code == KEY_RIGHTALT {
            self.altgr = value != 0;
            return KeyAction::Relay;
        }
        if value == 0 {
            return if self.held.remove(&code) { KeyAction::Swallow } else { KeyAction::Relay };
        }
        if let Some((spacing, mark)) = self.pending {
            self.pending = None;
            return match self.compose(spacing, mark, code) {
                Some(text) => KeyAction::Type(text),
                None => {
                    let v = vec![spacing];
                    assert(v@ == seq![spacing]);
                    KeyAction::Flush(string_of(&v))
                },
            };
        }
        match self.level(code) {
            Level::Text(text) => KeyAction::Type(text),
            Level::Dead(spacing, mark) => KeyAction::Arm(spacing, mark),
            Level::Pass(_) => KeyAction::Relay,
        }
    }

    /// The outcome of sending the text a `Type` asked for: when KOReader
    /// took it, the key is held so its release is not relayed either.
    /// The result is whether the key was taken.
    pub fn typed(&mut self, code: u16, sent: bool) -> (r: bool)
        ensures
            typed_post(*old(self), code, sent, *final(self), r),
    {
        if sent {
            self.held.insert(code);
        }
        sent
    }

    /// The answer to an `Arm`: whether KOReader is reachable. Without it the
    /// dead key would be swallowed instead of reaching X, so it is only armed
    /// when KOReader is there. The result is whether the key was taken.
    pub fn arm(&mut self, code: u16, spacing: char, mark: char, reachable: bool) -> (r: bool)
        ensures
            arm_post(*old(self), code, spacing, mark, reachable, *final(self), r),
    {
        if !reachable {
            return false;
        }
        self.pending = Some((spacing, mark));
        self.held.insert(code);
        true
    }
}

pub open spec fn code_of(v: u16) -> u16 {
    v
}

pub open spec fn list_of(v: Vec<Vec<char>>) -> Seq<Seq<char>> {
    views(v@)
}

/// The scan in progress over a dump.
struct Scanner {
    codes: Named<u16>,
    syms: Named<Vec<Vec<char>>>,
    in_symbols: bool,
    current: Vec<char>,
}

impl Scanner {
    spec fn holds(&self, st: Scan) -> bool {
        &&& self.codes.holds(st.codes, |v: u16| code_of(v))
        &&& self.syms.holds(st.symbols, |v: Vec<Vec<char>>| list_of(v))
        &&& self.in_symbols == st.in_symbols
        &&& self.current@ == st.current
    }

    fn step(&mut self, line: &Vec<char>, Ghost(st): Ghost<Scan>)
        requires
            old(self).holds(st),
        ensures
            final(self).holds(scan_line(st, line@)),
    {
        let t = trimmed(line);
        let xkb = chars_of("xkb_");
        if has_prefix(&t, &xkb) {
            let rest = slice(&t, xkb.len(), t.len());
            assert(rest@ == t@.skip("xkb_"@.len() as int));
            self.in_symbols = has_prefix(&rest, &chars_of("symbols"));
            return;
        }
        if !self.in_symbols {
            let name = between_chars(&t, '<', '>');
            let value = second_piece_of(&t, '=');
            if let (Some(name), Some(value)) = (name, value) {
                let v = stripped_end(&trimmed(&value), ';');
                if let Some(code) = parse_u16_of(&v) {
                    self.codes.put::<u16>(name, code, Ghost(st.codes), Ghost(|v: u16| code_of(v)));
                }
            }
            return;
        }
        let keyp = chars_of("key ");
        let is_key = has_prefix(&t, &keyp);
        if is_key {
            let rest = slice(&t, keyp.len(), t.len());
            assert(rest@ == t@.skip("key "@.len() as int));
            self.current = match between_chars(&rest, '<', '>') {
                Some(n) => n,
                None => Vec::new(),
            };
        }
        let ghost cur = self.current@;
        if self.current.len() > 0 && (is_key || has_prefix(&t, &chars_of("symbols[Group1]"))) {
            let tail = match rfind_char(&t, '=') {
                Some(i) => slice(&t, i + 1, t.len()),
                None => slice(&t, 0, t.len()),
            };
            assert(tail@ == after_last_eq(t@));
            if let Some(list) = between_chars(&tail, '[', ']') {
                let pieces = split_on(&list, ',');
                let mut items: Vec<Vec<char>> = Vec::new();
                let mut k: usize = 0;
                while k < pieces.len()
                    invariant
                        k <= pieces.len(),
                        views(pieces@) == split(list@, ','),
                        views(items@) == split(list@, ',').take(k as int).map_values(|p: Seq<char>| trim(p)),
                    decreases pieces.len() - k,
                {
                    let ghost before = items@;
                    let item = trimmed(&pieces[k]);
                    items.push(item);
                    assert(views(items@) =~= views(before).push(item@));
                    assert(split(list@, ',').take(k + 1).map_values(|p: Seq<char>| trim(p))
                        =~= split(list@, ',').take(k as int).map_values(|p: Seq<char>| trim(p)).push(trim(split(list@, ',')[k as int])));
                    k = k + 1;
                }
                assert(split(list@, ',').take(pieces.len() as int) == split(list@, ','));
                let name = slice(&self.current, 0, self.current.len());
                assert(name@ == cur);
                assert(list_of(items) == split(list@, ',').map_values(|p: Seq<char>| trim(p)));
                self.syms.put::<Seq<Seq<char>>>(name, items, Ghost(st.symbols), Ghost(|v: Vec<Vec<char>>| list_of(v)));
                self.current = Vec::new();
            }
        }
    }
}

/// Level `idx` of a key whose symbol list is `list`.
fn level_at(code: u16, list: &Vec<Vec<char>>, idx: usize) -> (r: Level)
    requires
        idx < 4,
    ensures
        r@ == levels_spec(code, views(list@))[idx as int],
{
    if idx < list.len() {
        resolve(code, idx, &list[idx])
    } else {
        Level::Pass(None)
    }
}

fn levels_of(code: u16, list: &Vec<Vec<char>>) -> (r: [Level; 4])
    ensures
        level_views(r) == levels_spec(code, views(list@)),
{
    let r = [level_at(code, list, 0), level_at(code, list, 1), level_at(code, list, 2), level_at(code, list, 3)];
    assert(level_views(r) =~= levels_spec(code, views(list@)));
    r
}

impl KoLayout {
    /// Reads the layout out of an `xkbcomp -xkb` dump of the running keymap.
    /// Only keys with some level KOReader needs are kept.
    pub fn from_xkb(dump: &str) -> (r: KoLayout)
        ensures
            table_from(scan_dump(dump@), r.table()),
            !r.shift,
            !r.altgr,
            r.pending is None,
            r.held@ == Set::<u16>::empty(),
    {
        let text = chars_of(dump);
        let lines = split_on(&text, '\n');
        let mut sc = Scanner {
            codes: Named::new::<u16>(Ghost(|v: u16| code_of(v))),
            syms: Named::new::<Seq<Seq<char>>>(Ghost(|v: Vec<Vec<char>>| list_of(v))),
            in_symbols: false,
            current: Vec::new(),
        };
        let ghost mut st = scan_start();
        let mut i: usize = 0;
        while i < lines.len()
            invariant
                i <= lines.len(),
                views(lines@) == split(dump@, '\n'),
                st == scan(views(lines@).take(i as int)),
                sc.holds(st),
            decreases lines.len() - i,
        {
            sc.step(&lines[i], Ghost(st));
            proof {
                assert(views(lines@).take(i + 1).drop_last() == views(lines@).take(i as int));
                st = scan_line(st, lines@[i as int]@);
            }
            i = i + 1;
        }
        assert(views(lines@).take(lines.len() as int) == views(lines@));
        assert(st == scan_dump(dump@));

        let mut keys: HashMap<u16, [Level; 4]> = HashMap::new();
        let n = sc.syms.names.len();
        let mut k: usize = 0;
        while k < n
            invariant
                k <= n == sc.syms.names.len(),
                sc.holds(st),
                forall|c: u16| #[trigger] keys@.contains_key(c) <==> exists|j: int|
                    0 <= j < k && claims_from(st, sc.syms.names@[j]@, c),
                forall|c: u16| #[trigger] keys@.contains_key(c) ==> exists|j: int|
                    0 <= j < k && claims_from(st, sc.syms.names@[j]@, c)
                    && level_views(keys@[c]) == levels_spec(c, st.symbols[sc.syms.names@[j]@]),
            decreases n - k,
        {
            let ghost nm = sc.syms.names@[k as int]@;
            assert(st.symbols.contains_key(nm));
            assert(st.symbols[nm] == list_of(sc.syms.vals@[k as int]));
            let x = sc.codes.get::<u16>(&sc.syms.names[k], Ghost(st.codes), Ghost(|v: u16| code_of(v)));
            if let Some(x) = x {
                let x = *x;
                if x >= KEYCODE_OFFSET {
                    let code = x - KEYCODE_OFFSET;
                    let levels = levels_of(code, &sc.syms.vals[k]);
                    let any = !(levels[0].is_pass() && levels[1].is_pass() && levels[2].is_pass() && levels[3].is_pass());
                    proof {
                        let lv = levels_spec(code, st.symbols[nm]);
                        assert(lv == level_views(levels));
                        if claimed(lv) {
                            let w = choose|w: int| 0 <= w < lv.len() && !(#[trigger] lv[w]).is_pass();
                            assert(w == 0 || w == 1 || w == 2 || w == 3);
                        }
                        assert(lv[0] == levels@[0]@ && lv[1] == levels@[1]@ && lv[2] == levels@[2]@
                            && lv[3] == levels@[3]@);
                        if any {
                            if !lv[0].is_pass() { assert(!lv[0].is_pass()); }
                            else if !lv[1].is_pass() { assert(!lv[1].is_pass()); }
                            else if !lv[2].is_pass() { assert(!lv[2].is_pass()); }
                            else { assert(!lv[3].is_pass()); }
                        }
                        assert(any == claimed(lv));
                    }
                    if any {
                        let ghost before = keys@;
                        keys.insert(code, levels);
                        proof {
                            assert(claims_from(st, nm, code));
                            assert forall|c: u16| #[trigger] keys@.contains_key(c) implies exists|j: int|
                                0 <= j < k + 1 && claims_from(st, sc.syms.names@[j]@, c)
                                && level_views(keys@[c]) == levels_spec(c, st.symbols[sc.syms.names@[j]@]) by {
                                if c == code {
                                    assert(sc.syms.names@[k as int]@ == nm);
                                } else {
                                    assert(before.contains_key(c));
                                }
                            }
                            assert forall|c: u16| (exists|j: int|
                                0 <= j < k + 1 && claims_from(st, sc.syms.names@[j]@, c)) implies #[trigger] keys@.contains_key(c) by {
                                if c != code {
                                    let j = choose|j: int| 0 <= j < k + 1 && claims_from(st, sc.syms.names@[j]@, c);
                                    if j == k {
                                        assert(st.codes[nm] - KEYCODE_OFFSET == c);
                                    }
                                    assert(before.contains_key(c));
                                }
                            }
                        }
                    } else {
                        proof {
                            assert forall|c: u16| !claims_from(st, nm, c) by {}
                        }
                    }
                } else {
                    assert forall|c: u16| !claims_from(st, nm, c) by {}
                }
            } else {
                assert forall|c: u16| !claims_from(st, nm, c) by {}
            }
            proof {
                assert forall|c: u16| #[trigger] keys@.contains_key(c) <==> exists|j: int|
                    0 <= j < k + 1 && claims_from(st, sc.syms.names@[j]@, c) by {
                    if exists|j: int| 0 <= j < k + 1 && claims_from(st, sc.syms.names@[j]@, c) {
                        let j = choose|j: int| 0 <= j < k + 1 && claims_from(st, sc.syms.names@[j]@, c);
                        if j < k {
                            assert(keys@.contains_key(c));
                        }
                    }
                }
            }
            k = k + 1;
        }
        let r = KoLayout { keys, shift: false, altgr: false, pending: None, held: HashSet::new() };
        proof {
            assert forall|c: u16| r.table().contains_key(c) <==> exists|nn: Seq<char>| claims_from(st, nn, c) by {
                if exists|nn: Seq<char>| claims_from(st, nn, c) {
                    let nn = choose|nn: Seq<char>| claims_from(st, nn, c);
                    assert(sc.syms.has(nn));
                    let j = choose|j: int| 0 <= j < sc.syms.names.len() && sc.syms.names@[j]@ == nn;
                    assert(claims_from(st, sc.syms.names@[j]@, c));
                    assert(keys@.contains_key(c));
                }
                if keys@.contains_key(c) {
                    let j = choose|j: int| 0 <= j < n && claims_from(st, sc.syms.names@[j]@, c);
                    assert(claims_from(st, sc.syms.names@[j]@, c));
                }
            }
            assert forall|c: u16| #[trigger] r.table().contains_key(c) implies exists|nn: Seq<char>|
                claims_from(st, nn, c) && r.table()[c] == levels_spec(c, st.symbols[nn]) by {
                assert(keys@.contains_key(c));
                let j = choose|j: int| 0 <= j < n && claims_from(st, sc.syms.names@[j]@, c)
                    && level_views(keys@[c]) == levels_spec(c, st.symbols[sc.syms.names@[j]@]);
                assert(claims_from(st, sc.syms.names@[j]@, c));
            }
        }
        r
    }

    /// The layout from a dump of the running keymap, or None when it claims
    /// no key at all, so typing in KOReader stays US. Counting every level
    /// matters: a layout that differs only under Shift or AltGr still counts.
    pub fn load(dump: &str) -> (r: Option<KoLayout>)
        ensures
            match r {
                Some(l) => {
                    &&& table_from(scan_dump(dump@), l.table())
                    &&& exists|c: u16, n: Seq<char>| claims_from(scan_dump(dump@), n, c)
                    &&& !l.shift && !l.altgr && l.pending is None
                    &&& l.held@ == Set::<u16>::empty()
                },
                None => forall|c: u16, n: Seq<char>| !claims_from(scan_dump(dump@), n, c),
            },
    {
        let parsed = Self::from_xkb(dump);
        let ghost st = scan_dump(dump@);
        if parsed.keys.len() == 0 {
            proof {
                assert forall|c: u16, n: Seq<char>| !claims_from(st, n, c) by {
                    if claims_from(st, n, c) {
                        assert(parsed.table().contains_key(c));
                        assert(parsed.keys@.dom().contains(c));
                        vstd::set_lib::lemma_set_empty_equivalency_len(parsed.keys@.dom());
                    }
                }
            }
            None
        } else {
            proof {
                assert(parsed.keys@.dom().len() > 0);
                vstd::set_lib::lemma_set_empty_equivalency_len(parsed.keys@.dom());
                assert(parsed.keys@.dom() != Set::<u16>::empty());
                let c = parsed.keys@.dom().choose();
                assert(parsed.keys@.dom().contains(c)) by {
                    if !parsed.keys@.dom().contains(c) {
                        assert(parsed.keys@.dom() =~= Set::<u16>::empty());
                    }
                }
                assert(parsed.table().contains_key(c));
                let n = choose|n: Seq<char>| claims_from(st, n, c);
                assert(claims_from(st, n, c));
            }
            Some(parsed)
        }
    }
}

/// A key whose press went to KOReader as text is not relayed when it is
/// released: the release is swallowed, so the character does not arrive
/// twice.
pub proof fn law_taken_key_release_is_swallowed(
    s0: KoLayout,
    code: u16,
    s1: KoLayout,
    taken: bool,
    s2: KoLayout,
    r: KeyAction,
)
    requires
        code != KEY_LEFTSHIFT && code != KEY_RIGHTSHIFT && code != KEY_RIGHTALT,
        typed_post(s0, code, true, s1, taken),
        consume_post(s1, code, 0, s2, r),
    ensures
        r == KeyAction::Swallow,
        !s2.held@.contains(code),
{
}

/// A dead key armed while KOReader is reachable is used up by the next
/// press of any other key: it composes with what that key types, or is
/// flushed alone when the key types nothing.
pub proof fn law_dead_key_composes_with_the_next_press(
    s0: KoLayout,
    dead_code: u16,
    spacing: char,
    mark: char,
    s1: KoLayout,
    armed: bool,
    code: u16,
    value: i32,
    s2: KoLayout,
    r: KeyAction,
)
    requires
        arm_post(s0, dead_code, spacing, mark, true, s1, armed),
        code != KEY_LEFTSHIFT && code != KEY_RIGHTSHIFT && code != KEY_RIGHTALT,
        value != 0,
        consume_post(s1, code, value, s2, r),
    ensures
        s2.pending is None,
        match s1.compose_spec(spacing, mark, code) {
            Some(t) => r matches KeyAction::Type(s) && s@ == t,
            None => r matches KeyAction::Flush(s) && s@ == seq![spacing],
        },
{
}

/// Shift and AltGr are never taken from the keyboard: they relay, and only
/// the level they select changes.
pub proof fn law_modifiers_always_relay(s0: KoLayout, code: u16, value: i32, s1: KoLayout, r: KeyAction)
    requires
        code == KEY_LEFTSHIFT || code == KEY_RIGHTSHIFT || code == KEY_RIGHTALT,
        consume_post(s0, code, value, s1, r),
    ensures
        r == KeyAction::Relay,
        s1.held@ == s0.held@,
        s1.pending == s0.pending,
        s1.keys@ == s0.keys@,
{
}

/// What a US keyboard types, row by row from the kernel code of each row's
/// first key: the digits `1234567890` from 2, `qwertyuiop` from 16,
/// `asdfghjkl` from 30 and `zxcvbnm` from 44; at any other code it types no
/// letter or digit KOReader's table knows.
pub proof fn law_us_keyboard_rows(code: u16)
    ensures
        2 <= code < 12 ==> us_char(code) == Some("1234567890"@[code - 2]),
        16 <= code < 26 ==> us_char(code) == Some("qwertyuiop"@[code - 16]),
        30 <= code < 39 ==> us_char(code) == Some("asdfghjkl"@[code - 30]),
        44 <= code < 51 ==> us_char(code) == Some("zxcvbnm"@[code - 44]),
        !(2 <= code < 12 || 16 <= code < 26 || 30 <= code < 39 || 44 <= code < 51) ==> us_char(code) is None,
{
    reveal_strlit("1234567890");
    reveal_strlit("qwertyuiop");
    reveal_strlit("asdfghjkl");
    reveal_strlit("zxcvbnm");
    assert("1234567890"@ =~= seq!['1', '2', '3', '4', '5', '6', '7', '8', '9', '0']);
    assert("qwertyuiop"@ =~= seq!['q', 'w', 'e', 'r', 't', 'y', 'u', 'i', 'o', 'p']);
    assert("asdfghjkl"@ =~= seq!['a', 's', 'd', 'f', 'g', 'h', 'j', 'k', 'l']);
    assert("zxcvbnm"@ =~= seq!['z', 'x', 'c', 'v', 'b', 'n', 'm']);
}

/// On a key of the US letter and digit rows, the unshifted level relays
/// exactly when it types what a US keyboard types there, and the shifted
/// level exactly when it types the upper case of that US letter; any other
/// character the layout puts there (not whitespace, not a control
/// character) is sent to KOReader as text. So a moved letter, such as the
/// `y` a QWERTZ keyboard types where US has `z`, is typed, not relayed.
pub proof fn law_moved_characters_are_typed(code: u16, sym: Seq<char>, ch: char, first: u16, row: Seq<char>)
    requires
        spec_dead(sym) is None,
        spec_to_char(sym) == Some(ch),
        ch > ' ',
        !is_control(ch),
        (first == 2 && row == "1234567890"@) || (first == 16 && row == "qwertyuiop"@)
            || (first == 30 && row == "asdfghjkl"@) || (first == 44 && row == "zxcvbnm"@),
        first <= code < first + row.len(),
    ensures
        ch == row[code - first] ==> resolve_spec(code, 0, sym) == LevelV::Pass(Some(ch)),
        ch != row[code - first] ==> resolve_spec(code, 0, sym) == LevelV::Text(seq![ch]),
        is_lower(row[code - first]) && ch == upper(row[code - first]) ==> resolve_spec(code, 1, sym)
            == LevelV::Pass(Some(ch)),
        !(is_lower(row[code - first]) && ch == upper(row[code - first])) ==> resolve_spec(code, 1, sym)
            == LevelV::Text(seq![ch]),
{
    law_us_keyboard_rows(code);
    reveal_strlit("1234567890");
    reveal_strlit("qwertyuiop");
    reveal_strlit("asdfghjkl");
    reveal_strlit("zxcvbnm");
    assert(us_char(code) == Some(row[code - first]));
}

} // verus!
