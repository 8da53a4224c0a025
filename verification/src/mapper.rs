//! What a button, D-pad or trigger event does: debouncing, long presses,
//! auto-repeat, and controllers that repeat by press-release-press cycles.
//! Time comes in as nanoseconds on a monotonic clock; each handler returns
//! the script to run, if any.

use vstd::prelude::*;
use std::collections::HashMap;
use crate::config::{
    copy_per_direction, copy_per_trigger, copy_script, DeviceConfig, DpadDirection, PerDirection,
    PerTrigger, Trigger,
};
use crate::keys::{code, key_code};

verus! {

broadcast use vstd::std_specs::hash::group_hash_axioms;

/// How long between two D-pad or trigger events still counts as one hold.
pub const SEQUENCE_MS: u64 = 300;
/// A trigger counts as pressed past half travel (0..1023).
pub const TRIGGER_PRESSED_ABOVE: i32 = 512;

/// Time from `since` to `now`, zero if the clock went backwards.
pub open spec fn elapsed(since: u64, now: u64) -> int {
    if now >= since { now - since } else { 0 }
}

/// `n` milliseconds in nanoseconds.
pub open spec fn millis(n: u64) -> int {
    n * 1_000_000
}

/// Whether less than `ms` milliseconds passed from `since` to `now`.
pub fn sooner_than(since: u64, now: u64, ms: u64) -> (r: bool)
    ensures
        r == (elapsed(since, now) < millis(ms)),
{
    let e: u64 = if now >= since { now - since } else { 0 };
    (e as u128) < (ms as u128) * 1_000_000
}

/// The script bound to `k` in `m`.
pub open spec fn bound(m: Map<u16, String>, k: u16) -> Option<String> {
    if m.contains_key(k) { Some(m[k]) } else { None }
}

/// The first non-empty of two bindings.
pub open spec fn either(a: Option<String>, b: Option<String>) -> Option<String> {
    if a is Some { a } else { b }
}

/// The direction a hat event points to, if any.
pub open spec fn dpad_direction(axis: u16, value: i32) -> Option<DpadDirection> {
    if axis == 16 && value == -1 {
        Some(DpadDirection::Left)
    } else if axis == 16 && value == 1 {
        Some(DpadDirection::Right)
    } else if axis == 17 && value == -1 {
        Some(DpadDirection::Up)
    } else if axis == 17 && value == 1 {
        Some(DpadDirection::Down)
    } else {
        None
    }
}

/// The trigger an absolute axis stands for.
pub open spec fn trigger_of(axis: u16) -> Option<Trigger> {
    if axis == 9 {
        Some(Trigger::RT)
    } else if axis == 10 {
        Some(Trigger::LT)
    } else {
        None
    }
}

pub struct Mapper {
    pub mappings: HashMap<u16, String>,
    pub long_press_mappings: HashMap<u16, String>,
    pub dpad_mappings: PerDirection<Option<String>>,
    pub dpad_longpress_mappings: PerDirection<Option<String>>,
    pub trigger_mappings: PerTrigger<Option<String>>,
    pub trigger_longpress_mappings: PerTrigger<Option<String>>,
    pub debounce_ms: u64,
    pub long_press_ms: u64,
    pub repeat_ms: u64,
    pub log_buttons: bool,
    pub last_press: HashMap<u16, u64>,
    pub press_start: HashMap<u16, u64>,
    pub long_press_fired: HashMap<u16, bool>,
    pub last_repeat: HashMap<u16, u64>,
    pub last_dpad: PerDirection<Option<u64>>,
    pub last_trigger: PerTrigger<Option<u64>>,
    /// Whether each trigger is currently past half travel.
    pub trigger_state: PerTrigger<bool>,
    /// First press of the current D-pad hold.
    pub dpad_sequence_start: PerDirection<Option<u64>>,
    /// Last D-pad event of either polarity.
    pub dpad_last_event: PerDirection<Option<u64>>,
    pub dpad_longpress_fired: PerDirection<bool>,
    pub trigger_sequence_start: PerTrigger<Option<u64>>,
    pub trigger_last_event: PerTrigger<Option<u64>>,
    pub trigger_longpress_fired: PerTrigger<bool>,
}

impl Mapper {
    /// Bindings and timings are never changed by an event.
    pub open spec fn same_setup(&self, other: &Mapper) -> bool {
        &&& self.mappings@ == other.mappings@
        &&& self.long_press_mappings@ == other.long_press_mappings@
        &&& self.dpad_mappings == other.dpad_mappings
        &&& self.dpad_longpress_mappings == other.dpad_longpress_mappings
        &&& self.trigger_mappings == other.trigger_mappings
        &&& self.trigger_longpress_mappings == other.trigger_longpress_mappings
        &&& self.debounce_ms == other.debounce_ms
        &&& self.long_press_ms == other.long_press_ms
        &&& self.repeat_ms == other.repeat_ms
        &&& self.log_buttons == other.log_buttons
    }

    pub open spec fn same_buttons(&self, other: &Mapper) -> bool {
        &&& self.last_press@ == other.last_press@
        &&& self.press_start@ == other.press_start@
        &&& self.long_press_fired@ == other.long_press_fired@
        &&& self.last_repeat@ == other.last_repeat@
    }

    pub open spec fn same_dpad(&self, other: &Mapper) -> bool {
        &&& self.last_dpad == other.last_dpad
        &&& self.dpad_sequence_start == other.dpad_sequence_start
        &&& self.dpad_last_event == other.dpad_last_event
        &&& self.dpad_longpress_fired == other.dpad_longpress_fired
    }

    pub open spec fn same_triggers(&self, other: &Mapper) -> bool {
        &&& self.last_trigger == other.last_trigger
        &&& self.trigger_state == other.trigger_state
        &&& self.trigger_sequence_start == other.trigger_sequence_start
        &&& self.trigger_last_event == other.trigger_last_event
        &&& self.trigger_longpress_fired == other.trigger_longpress_fired
    }

    /// A fresh mapper: the device's bindings, the timings, nothing pressed.
    pub open spec fn fresh(&self, cfg: &DeviceConfig, debounce_ms: u64, long_press_ms: u64, repeat_ms: u64, log_buttons: bool) -> bool {
        &&& self.mappings@ == cfg.mappings@
        &&& self.long_press_mappings@ == cfg.long_press_mappings@
        &&& self.dpad_mappings == cfg.dpad_mappings
        &&& self.dpad_longpress_mappings == cfg.dpad_longpress_mappings
        &&& self.trigger_mappings == cfg.trigger_mappings
        &&& self.trigger_longpress_mappings == cfg.trigger_longpress_mappings
        &&& self.debounce_ms == debounce_ms
        &&& self.long_press_ms == long_press_ms
        &&& self.repeat_ms == repeat_ms
        &&& self.log_buttons == log_buttons
        &&& self.last_press@.is_empty()
        &&& self.press_start@.is_empty()
        &&& self.long_press_fired@.is_empty()
        &&& self.last_repeat@.is_empty()
        &&& forall|d: DpadDirection| #![auto] {
            &&& self.last_dpad.at(d) is None
            &&& self.dpad_sequence_start.at(d) is None
            &&& self.dpad_last_event.at(d) is None
            &&& !self.dpad_longpress_fired.at(d)
        }
        &&& forall|t: Trigger| #![auto] {
            &&& self.last_trigger.at(t) is None
            &&& !self.trigger_state.at(t)
            &&& self.trigger_sequence_start.at(t) is None
            &&& self.trigger_last_event.at(t) is None
            &&& !self.trigger_longpress_fired.at(t)
        }
    }

    pub fn new(cfg: &DeviceConfig, debounce_ms: u64, long_press_ms: u64, repeat_ms: u64, log_buttons: bool) -> (r: Self)
        ensures
            r.fresh(cfg, debounce_ms, long_press_ms, repeat_ms, log_buttons),
    {
        Mapper {
            mappings: cfg.mappings.clone(),
            long_press_mappings: cfg.long_press_mappings.clone(),
            dpad_mappings: copy_per_direction(&cfg.dpad_mappings),
            dpad_longpress_mappings: copy_per_direction(&cfg.dpad_longpress_mappings),
            trigger_mappings: copy_per_trigger(&cfg.trigger_mappings),
            trigger_longpress_mappings: copy_per_trigger(&cfg.trigger_longpress_mappings),
            debounce_ms,
            long_press_ms,
            repeat_ms,
            log_buttons,
            last_press: HashMap::new(),
            press_start: HashMap::new(),
            long_press_fired: HashMap::new(),
            last_repeat: HashMap::new(),
            last_dpad: PerDirection { up: None, down: None, left: None, right: None },
            last_trigger: PerTrigger { lt: None, rt: None },
            trigger_state: PerTrigger { lt: false, rt: false },
            dpad_sequence_start: PerDirection { up: None, down: None, left: None, right: None },
            dpad_last_event: PerDirection { up: None, down: None, left: None, right: None },
            dpad_longpress_fired: PerDirection { up: false, down: false, left: false, right: false },
            trigger_sequence_start: PerTrigger { lt: None, rt: None },
            trigger_last_event: PerTrigger { lt: None, rt: None },
            trigger_longpress_fired: PerTrigger { lt: false, rt: false },
        }
    }

    /// True if this key is bound to a script (normal or long-press). Unbound
    /// keys are passed through to the virtual keyboard for the layout to map.
    pub fn is_mapped(&self, key: evdev::Key) -> (r: bool)
        ensures
            r == (self.mappings@.contains_key(key_code(key)) || self.long_press_mappings@.contains_key(key_code(key))),
    {
        let k = code(key);
        self.mappings.contains_key(&k) || self.long_press_mappings.contains_key(&k)
    }

    /// A press of `k` at `now` falls within the debounce window of the last one.
    pub open spec fn press_debounced(&self, k: u16, now: u64) -> bool {
        self.last_press@.contains_key(k) && elapsed(self.last_press@[k], now) < millis(self.debounce_ms)
    }

    /// The state a `handle_press` leaves.
    pub open spec fn press_post(pre: Mapper, key: evdev::Key, now: u64, post: Mapper) -> bool {
        &&& post.same_setup(&pre)
        &&& post.same_dpad(&pre)
        &&& post.same_triggers(&pre)
        &&& pre.press_debounced(key_code(key), now) ==> post.same_buttons(&pre)
        &&& !pre.press_debounced(key_code(key), now) ==> {
            &&& post.last_press@ == pre.last_press@.insert(key_code(key), now)
            &&& post.press_start@ == pre.press_start@.insert(key_code(key), now)
            &&& post.long_press_fired@ == pre.long_press_fired@.insert(key_code(key), false)
            &&& post.last_repeat@ == pre.last_repeat@
        }
    }

    /// A key pressed: starts a press unless it bounces within `debounce_ms` of
    /// the previous one.
    pub fn handle_press(&mut self, key: evdev::Key, now: u64)
        ensures
            Mapper::press_post(*old(self), key, now, *final(self)),
    {
        let k = code(key);
        if let Some(last) = self.last_press.get(&k) {
            if sooner_than(*last, now, self.debounce_ms) {
                return;
            }
        }
        self.last_press.insert(k, now);
        self.press_start.insert(k, now);
        self.long_press_fired.insert(k, false);
    }

    /// Whether the long-press action or a repeat already fired for `k`.
    pub open spec fn fired(&self, k: u16) -> bool {
        self.long_press_fired@.contains_key(k) && self.long_press_fired@[k]
    }

    /// `k` has been held past the long-press threshold.
    pub open spec fn held_long(&self, k: u16, now: u64) -> bool {
        self.press_start@.contains_key(k) && elapsed(self.press_start@[k], now) >= millis(self.long_press_ms)
    }

    /// A held report at `now` fires the long-press binding of `k`.
    pub open spec fn fires_long(&self, k: u16, now: u64) -> bool {
        self.held_long(k, now) && !self.fired(k) && self.long_press_mappings@.contains_key(k)
    }

    /// A held report at `now` repeats the normal binding of `k`.
    pub open spec fn repeats(&self, k: u16, now: u64) -> bool {
        &&& self.held_long(k, now)
        &&& !self.fires_long(k, now)
        &&& self.repeat_ms > 0
        &&& (!self.last_repeat@.contains_key(k) || elapsed(self.last_repeat@[k], now) >= millis(self.repeat_ms))
        &&& self.mappings@.contains_key(k)
    }

    /// The state a `handle_held` leaves and what it runs.
    pub open spec fn held_post(pre: Mapper, key: evdev::Key, now: u64, post: Mapper, r: Option<String>) -> bool {
        &&& post.same_setup(&pre)
        &&& post.same_dpad(&pre)
        &&& post.same_triggers(&pre)
        &&& post.last_press@ == pre.last_press@
        &&& post.press_start@ == pre.press_start@
        &&& pre.fires_long(key_code(key), now) ==> {
            &&& r == Some(pre.long_press_mappings@[key_code(key)])
            &&& post.long_press_fired@ == pre.long_press_fired@.insert(key_code(key), true)
            &&& post.last_repeat@ == pre.last_repeat@.insert(key_code(key), now)
        }
        &&& pre.repeats(key_code(key), now) ==> {
            &&& r == Some(pre.mappings@[key_code(key)])
            &&& post.long_press_fired@ == pre.long_press_fired@.insert(key_code(key), true)
            &&& post.last_repeat@ == pre.last_repeat@.insert(key_code(key), now)
        }
        &&& !pre.fires_long(key_code(key), now) && !pre.repeats(key_code(key), now) ==> {
            &&& r is None
            &&& post.same_buttons(&pre)
        }
    }

    /// A key held down (auto-repeat report). Past the long-press threshold it
    /// fires the long-press binding once, and otherwise repeats the normal
    /// binding every `repeat_ms`.
    pub fn handle_held(&mut self, key: evdev::Key, now: u64) -> (r: Option<String>)
        ensures
            Mapper::held_post(*old(self), key, now, *final(self), r),
    {
        let k = code(key);
        let active = match self.long_press_fired.get(&k) {
            Some(b) => *b,
            None => false,
        };
        let start = match self.press_start.get(&k) {
            Some(s) => *s,
            None => return None,
        };
        if sooner_than(start, now, self.long_press_ms) {
            return None;
        }
        if !active {
            if let Some(script) = self.long_press_mappings.get(&k) {
                let s = script.clone();
                self.long_press_fired.insert(k, true);
                self.last_repeat.insert(k, now);
                return Some(s);
            }
        }
        if self.repeat_ms > 0 {
            let should_repeat = match self.last_repeat.get(&k) {
                Some(last) => !sooner_than(*last, now, self.repeat_ms),
                None => true,
            };
            if should_repeat {
                if let Some(script) = self.mappings.get(&k) {
                    let s = script.clone();
                    self.last_repeat.insert(k, now);
                    self.long_press_fired.insert(k, true);
                    return Some(s);
                }
            }
        }
        None
    }

    /// The state a `handle_release` leaves and what it runs.
    pub open spec fn release_post(pre: Mapper, key: evdev::Key, post: Mapper, r: Option<String>) -> bool {
        &&& post.same_setup(&pre)
        &&& post.same_dpad(&pre)
        &&& post.same_triggers(&pre)
        &&& post.last_press@ == pre.last_press@
        &&& post.press_start@ == pre.press_start@.remove(key_code(key))
        &&& post.long_press_fired@ == pre.long_press_fired@.remove(key_code(key))
        &&& post.last_repeat@ == pre.last_repeat@.remove(key_code(key))
        &&& r == if pre.press_start@.contains_key(key_code(key)) && !pre.fired(key_code(key)) {
            bound(pre.mappings@, key_code(key))
        } else {
            None
        }
    }

    /// A key released. A debounced press never registered, so its release
    /// fires nothing; neither does one whose long press or repeat fired.
    pub fn handle_release(&mut self, key: evdev::Key) -> (r: Option<String>)
        ensures
            Mapper::release_post(*old(self), key, *final(self), r),
    {
        let k = code(key);
        let had_press = self.press_start.remove(&k).is_some();
        let long_press_fired = match self.long_press_fired.remove(&k) {
            Some(b) => b,
            None => false,
        };
        self.last_repeat.remove(&k);
        if !had_press || long_press_fired {
            return None;
        }
        match self.mappings.get(&k) {
            Some(script) => Some(script.clone()),
            None => None,
        }
    }

    /// A D-pad event for `d` at `now` starts a new hold: nothing was heard
    /// from that direction in the last 300 ms.
    pub open spec fn dpad_new_sequence(&self, d: DpadDirection, now: u64) -> bool {
        self.dpad_last_event.at(d) is None || elapsed(self.dpad_last_event.at(d)->0, now) > millis(SEQUENCE_MS)
    }

    pub open spec fn dpad_debounced(&self, d: DpadDirection, now: u64) -> bool {
        self.last_dpad.at(d) is Some && elapsed(self.last_dpad.at(d)->0, now) < millis(self.debounce_ms)
    }

    /// What a continued D-pad hold runs: past the long-press threshold the
    /// long-press binding, or else the normal one, on every event.
    pub open spec fn dpad_held_script(&self, d: DpadDirection, now: u64) -> Option<String> {
        if self.dpad_sequence_start.at(d) is Some && elapsed(self.dpad_sequence_start.at(d)->0, now)
            >= millis(self.long_press_ms) {
            either(self.dpad_longpress_mappings.at(d), self.dpad_mappings.at(d))
        } else {
            None
        }
    }

    fn handle_dpad_held(&mut self, dir: DpadDirection, now: u64) -> (r: Option<String>)
        ensures
            final(self).same_setup(old(self)),
            final(self).same_buttons(old(self)),
            final(self).same_triggers(old(self)),
            final(self).last_dpad == old(self).last_dpad,
            final(self).dpad_sequence_start == old(self).dpad_sequence_start,
            final(self).dpad_last_event == old(self).dpad_last_event,
            r == old(self).dpad_held_script(dir, now),
            forall|e: DpadDirection| #[trigger] final(self).dpad_longpress_fired.at(e) == if e == dir && r is Some {
                true
            } else {
                old(self).dpad_longpress_fired.at(e)
            },
    {
        let start = match self.dpad_sequence_start.get(dir) {
            Some(s) => *s,
            None => return None,
        };
        if sooner_than(start, now, self.long_press_ms) {
            return None;
        }
        let script = match self.dpad_longpress_mappings.get(dir) {
            Some(s) => Some(s.clone()),
            None => copy_script(self.dpad_mappings.get(dir)),
        };
        if script.is_some() {
            self.dpad_longpress_fired.set(dir, true);
        }
        script
    }

    /// The state a `handle_dpad` leaves and what it runs.
    pub open spec fn dpad_post(pre: Mapper, axis: u16, value: i32, now: u64, post: Mapper, r: Option<String>) -> bool {
        &&& post.same_setup(&pre)
        &&& post.same_buttons(&pre)
        &&& post.same_triggers(&pre)
        &&& value == 0 ==> {
            &&& r is None
            &&& post.last_dpad == pre.last_dpad
            &&& post.dpad_sequence_start == pre.dpad_sequence_start
            &&& post.dpad_longpress_fired == pre.dpad_longpress_fired
            &&& forall|e: DpadDirection| #[trigger] post.dpad_last_event.at(e) ==
                if (axis == 16 && (e == DpadDirection::Left || e == DpadDirection::Right))
                    || (axis == 17 && (e == DpadDirection::Up || e == DpadDirection::Down)) {
                    Some(now)
                } else {
                    pre.dpad_last_event.at(e)
                }
        }
        &&& value != 0 && dpad_direction(axis, value) is None ==> {
            &&& r is None
            &&& post.same_dpad(&pre)
        }
        &&& value != 0 && dpad_direction(axis, value) is Some ==> {
            let d = dpad_direction(axis, value)->0;
            &&& forall|e: DpadDirection| #[trigger] post.dpad_last_event.at(e) ==
                if e == d { Some(now) } else { pre.dpad_last_event.at(e) }
            &&& pre.dpad_new_sequence(d, now) && pre.dpad_debounced(d, now) ==> {
                &&& r is None
                &&& post.last_dpad == pre.last_dpad
                &&& post.dpad_sequence_start == pre.dpad_sequence_start
                &&& post.dpad_longpress_fired == pre.dpad_longpress_fired
            }
            &&& pre.dpad_new_sequence(d, now) && !pre.dpad_debounced(d, now) ==> {
                &&& r == pre.dpad_mappings.at(d)
                &&& forall|e: DpadDirection| #![auto] {
                    &&& post.last_dpad.at(e) == if e == d { Some(now) } else { pre.last_dpad.at(e) }
                    &&& post.dpad_sequence_start.at(e) == if e == d { Some(now) } else { pre.dpad_sequence_start.at(e) }
                    &&& post.dpad_longpress_fired.at(e) == if e == d { false } else { pre.dpad_longpress_fired.at(e) }
                }
            }
            &&& !pre.dpad_new_sequence(d, now) ==> {
                &&& r == pre.dpad_held_script(d, now)
                &&& post.last_dpad == pre.last_dpad
                &&& post.dpad_sequence_start == pre.dpad_sequence_start
                &&& forall|e: DpadDirection| #[trigger] post.dpad_longpress_fired.at(e) == if e == d && r is Some {
                    true
                } else {
                    pre.dpad_longpress_fired.at(e)
                }
            }
        }
    }

    /// Hat0X (16): -1 left, +1 right; Hat0Y (17): -1 up, +1 down; 0 centre.
    /// Controllers that auto-repeat by press-release-press cycles are
    /// handled as one hold while events keep coming within 300 ms: the first
    /// press of a hold runs the binding (after debouncing), later ones act as
    /// a held key. A centre event only notes the time.
    pub fn handle_dpad(&mut self, axis: u16, value: i32, now: u64) -> (r: Option<String>)
        ensures
            Mapper::dpad_post(*old(self), axis, value, now, *final(self), r),
    {
        if value == 0 {
            if axis == 16 {
                self.dpad_last_event.set(DpadDirection::Left, Some(now));
                self.dpad_last_event.set(DpadDirection::Right, Some(now));
            } else if axis == 17 {
                self.dpad_last_event.set(DpadDirection::Up, Some(now));
                self.dpad_last_event.set(DpadDirection::Down, Some(now));
            }
            return None;
        }
        let dir = if axis == 16 && value == -1 {
            DpadDirection::Left
        } else if axis == 16 && value == 1 {
            DpadDirection::Right
        } else if axis == 17 && value == -1 {
            DpadDirection::Up
        } else if axis == 17 && value == 1 {
            DpadDirection::Down
        } else {
            return None;
        };
        let is_new_sequence = match self.dpad_last_event.get(dir) {
            Some(last) => {
                let within = sooner_than(*last, now, SEQUENCE_MS);
                let at = if now >= *last { now - *last } else { 0 };
                !within && at != SEQUENCE_MS * 1_000_000
            },
            None => true,
        };
        self.dpad_last_event.set(dir, Some(now));
        if is_new_sequence {
            if let Some(last) = self.last_dpad.get(dir) {
                if sooner_than(*last, now, self.debounce_ms) {
                    return None;
                }
            }
            self.last_dpad.set(dir, Some(now));
            self.dpad_sequence_start.set(dir, Some(now));
            self.dpad_longpress_fired.set(dir, false);
            copy_script(self.dpad_mappings.get(dir))
        } else {
            self.handle_dpad_held(dir, now)
        }
    }

    /// A trigger event at `now` starts a new hold.
    pub open spec fn trigger_new_sequence(&self, t: Trigger, now: u64) -> bool {
        self.trigger_last_event.at(t) is None || elapsed(self.trigger_last_event.at(t)->0, now) > millis(SEQUENCE_MS)
    }

    pub open spec fn trigger_debounced(&self, t: Trigger, now: u64) -> bool {
        self.last_trigger.at(t) is Some && elapsed(self.last_trigger.at(t)->0, now) < millis(self.debounce_ms)
    }

    /// What a continued trigger hold runs.
    pub open spec fn trigger_held_script(&self, t: Trigger, now: u64) -> Option<String> {
        if self.trigger_sequence_start.at(t) is Some && elapsed(self.trigger_sequence_start.at(t)->0, now)
            >= millis(self.long_press_ms) {
            either(self.trigger_longpress_mappings.at(t), self.trigger_mappings.at(t))
        } else {
            None
        }
    }

    fn handle_trigger_held(&mut self, t: Trigger, now: u64) -> (r: Option<String>)
        ensures
            final(self).same_setup(old(self)),
            final(self).same_buttons(old(self)),
            final(self).same_dpad(old(self)),
            final(self).last_trigger == old(self).last_trigger,
            final(self).trigger_state == old(self).trigger_state,
            final(self).trigger_sequence_start == old(self).trigger_sequence_start,
            final(self).trigger_last_event == old(self).trigger_last_event,
            r == old(self).trigger_held_script(t, now),
            forall|e: Trigger| #[trigger] final(self).trigger_longpress_fired.at(e) == if e == t && r is Some {
                true
            } else {
                old(self).trigger_longpress_fired.at(e)
            },
    {
        let start = match self.trigger_sequence_start.get(t) {
            Some(s) => *s,
            None => return None,
        };
        if sooner_than(start, now, self.long_press_ms) {
            return None;
        }
        let script = match self.trigger_longpress_mappings.get(t) {
            Some(s) => Some(s.clone()),
            None => copy_script(self.trigger_mappings.get(t)),
        };
        if script.is_some() {
            self.trigger_longpress_fired.set(t, true);
        }
        script
    }

    /// The state a `handle_trigger` leaves and what it runs.
    pub open spec fn trigger_post(pre: Mapper, axis: u16, value: i32, now: u64, post: Mapper, r: Option<String>) -> bool {
        &&& post.same_setup(&pre)
        &&& post.same_buttons(&pre)
        &&& post.same_dpad(&pre)
        &&& trigger_of(axis) is None ==> r is None && post.same_triggers(&pre)
        &&& trigger_of(axis) is Some ==> {
            let t = trigger_of(axis)->0;
            let pressed = value > TRIGGER_PRESSED_ABOVE;
            let was = pre.trigger_state.at(t);
            &&& !pressed && !was ==> r is None && post.same_triggers(&pre)
            &&& !pressed && was ==> {
                &&& r is None
                &&& forall|e: Trigger| #![auto] {
                    &&& post.trigger_last_event.at(e) == if e == t { Some(now) } else { pre.trigger_last_event.at(e) }
                    &&& post.trigger_state.at(e) == if e == t { false } else { pre.trigger_state.at(e) }
                }
                &&& post.last_trigger == pre.last_trigger
                &&& post.trigger_sequence_start == pre.trigger_sequence_start
                &&& post.trigger_longpress_fired == pre.trigger_longpress_fired
            }
            &&& pressed ==> {
                &&& forall|e: Trigger| #![auto] {
                    &&& post.trigger_last_event.at(e) == if e == t { Some(now) } else { pre.trigger_last_event.at(e) }
                    &&& post.trigger_state.at(e) == if e == t { true } else { pre.trigger_state.at(e) }
                }
            }
            &&& pressed && !was && pre.trigger_new_sequence(t, now) && pre.trigger_debounced(t, now) ==> {
                &&& r is None
                &&& post.last_trigger == pre.last_trigger
                &&& post.trigger_sequence_start == pre.trigger_sequence_start
                &&& post.trigger_longpress_fired == pre.trigger_longpress_fired
            }
            &&& pressed && !was && pre.trigger_new_sequence(t, now) && !pre.trigger_debounced(t, now) ==> {
                &&& r == pre.trigger_mappings.at(t)
                &&& forall|e: Trigger| #![auto] {
                    &&& post.last_trigger.at(e) == if e == t { Some(now) } else { pre.last_trigger.at(e) }
                    &&& post.trigger_sequence_start.at(e) == if e == t { Some(now) } else { pre.trigger_sequence_start.at(e) }
                    &&& post.trigger_longpress_fired.at(e) == if e == t { false } else { pre.trigger_longpress_fired.at(e) }
                }
            }
            &&& pressed && (was || !pre.trigger_new_sequence(t, now)) ==> {
                &&& r == pre.trigger_held_script(t, now)
                &&& post.last_trigger == pre.last_trigger
                &&& post.trigger_sequence_start == pre.trigger_sequence_start
                &&& forall|e: Trigger| #[trigger] post.trigger_longpress_fired.at(e) == if e == t && r is Some {
                    true
                } else {
                    pre.trigger_longpress_fired.at(e)
                }
            }
        }
    }

    /// Gas (9) is RT, Brake (10) LT, 0 released to 1023 fully pressed; past
    /// half travel counts as pressed. Press-release-press cycles within
    /// 300 ms are one hold, as on the D-pad; a trigger kept pressed acts as
    /// held on every report.
    pub fn handle_trigger(&mut self, axis: u16, value: i32, now: u64) -> (r: Option<String>)
        ensures
            Mapper::trigger_post(*old(self), axis, value, now, *final(self), r),
    {
        let trigger = if axis == 9 {
            Trigger::RT
        } else if axis == 10 {
            Trigger::LT
        } else {
            return None;
        };
        let pressed = value > TRIGGER_PRESSED_ABOVE;
        let was_pressed = *self.trigger_state.get(trigger);
        if !pressed && was_pressed {
            self.trigger_last_event.set(trigger, Some(now));
            self.trigger_state.set(trigger, false);
            return None;
        }
        if pressed && !was_pressed {
            let is_new_sequence = match self.trigger_last_event.get(trigger) {
                Some(last) => {
                    let within = sooner_than(*last, now, SEQUENCE_MS);
                    let at = if now >= *last { now - *last } else { 0 };
                    !within && at != SEQUENCE_MS * 1_000_000
                },
                None => true,
            };
            self.trigger_last_event.set(trigger, Some(now));
            self.trigger_state.set(trigger, true);
            if is_new_sequence {
                if let Some(last) = self.last_trigger.get(trigger) {
                    if sooner_than(*last, now, self.debounce_ms) {
                        return None;
                    }
                }
                self.last_trigger.set(trigger, Some(now));
                self.trigger_sequence_start.set(trigger, Some(now));
                self.trigger_longpress_fired.set(trigger, false);
                copy_script(self.trigger_mappings.get(trigger))
            } else {
                self.handle_trigger_held(trigger, now)
            }
        } else if pressed && was_pressed {
            self.trigger_last_event.set(trigger, Some(now));
            self.handle_trigger_held(trigger, now)
        } else {
            None
        }
    }
}

/// A press that is not a bounce, released before any held report, runs the
/// key's normal binding (or nothing when the key is unbound).
pub proof fn law_short_press_runs_binding_on_release(
    m0: Mapper,
    key: evdev::Key,
    now: u64,
    m1: Mapper,
    m2: Mapper,
    r: Option<String>,
)
    requires
        !m0.press_debounced(key_code(key), now),
        Mapper::press_post(m0, key, now, m1),
        Mapper::release_post(m1, key, m2, r),
    ensures
        r == bound(m0.mappings@, key_code(key)),
{
}

/// A bounce (a press within `debounce_ms` of the last one, after its
/// release) never registers, so its own release runs nothing either.
pub proof fn law_bounce_runs_nothing(
    m0: Mapper,
    key: evdev::Key,
    r0: Option<String>,
    m1: Mapper,
    now: u64,
    m2: Mapper,
    m3: Mapper,
    r: Option<String>,
)
    requires
        Mapper::release_post(m0, key, m1, r0),
        m1.press_debounced(key_code(key), now),
        Mapper::press_post(m1, key, now, m2),
        Mapper::release_post(m2, key, m3, r),
    ensures
        r is None,
{
}

/// Once the long-press binding fired, it does not fire again during that
/// hold, and the release runs nothing.
pub proof fn law_long_press_fires_once(
    m0: Mapper,
    key: evdev::Key,
    t1: u64,
    m1: Mapper,
    r1: Option<String>,
    t2: u64,
    m2: Mapper,
    r2: Option<String>,
    m3: Mapper,
    r3: Option<String>,
)
    requires
        m0.fires_long(key_code(key), t1),
        Mapper::held_post(m0, key, t1, m1, r1),
        Mapper::held_post(m1, key, t2, m2, r2),
        Mapper::release_post(m2, key, m3, r3),
    ensures
        r1 == Some(m0.long_press_mappings@[key_code(key)]),
        !m1.fires_long(key_code(key), t2),
        r3 is None,
{
    assert(m1.fired(key_code(key)));
    assert(m2.long_press_fired@.contains_key(key_code(key)));
}

/// A controller that repeats by press-release-press cycles: the first press
/// of a hold runs the binding, and another press of the same direction
/// within 300 ms, before the long-press threshold, runs nothing.
pub proof fn law_dpad_quick_repeat_is_one_hold(
    m0: Mapper,
    axis: u16,
    value: i32,
    t1: u64,
    m1: Mapper,
    r1: Option<String>,
    t2: u64,
    m2: Mapper,
    r2: Option<String>,
)
    requires
        value != 0,
        dpad_direction(axis, value) is Some,
        m0.dpad_new_sequence(dpad_direction(axis, value)->0, t1),
        !m0.dpad_debounced(dpad_direction(axis, value)->0, t1),
        Mapper::dpad_post(m0, axis, value, t1, m1, r1),
        t1 <= t2,
        elapsed(t1, t2) <= millis(SEQUENCE_MS),
        elapsed(t1, t2) < millis(m0.long_press_ms),
        Mapper::dpad_post(m1, axis, value, t2, m2, r2),
    ensures
        r1 == m0.dpad_mappings.at(dpad_direction(axis, value)->0),
        r2 is None,
{
    let d = dpad_direction(axis, value)->0;
    assert(m1.dpad_last_event.at(d) == Some(t1));
    assert(!m1.dpad_new_sequence(d, t2));
    assert(m1.dpad_sequence_start.at(d) == Some(t1));
}

/// The hat's axes and signs: Hat0X (16) is -1 left and +1 right, Hat0Y
/// (17) is -1 up and +1 down. On a mapper that has heard nothing from the
/// D-pad yet, a press runs the binding of the direction pressed.
pub proof fn law_hat_press_runs_its_directions_binding(
    pre: Mapper,
    axis: u16,
    value: i32,
    now: u64,
    post: Mapper,
    r: Option<String>,
)
    requires
        Mapper::dpad_post(pre, axis, value, now, post, r),
        pre.dpad_last_event == (PerDirection::<Option<u64>> { up: None, down: None, left: None, right: None }),
        pre.last_dpad == (PerDirection::<Option<u64>> { up: None, down: None, left: None, right: None }),
    ensures
        axis == 16 && value == 1 ==> r == pre.dpad_mappings.right,
        axis == 16 && value == -1 ==> r == pre.dpad_mappings.left,
        axis == 17 && value == -1 ==> r == pre.dpad_mappings.up,
        axis == 17 && value == 1 ==> r == pre.dpad_mappings.down,
        !((axis == 16 || axis == 17) && (value == 1 || value == -1)) ==> r is None,
{
}

/// A D-pad direction held (events keep coming within 300 ms) past
/// `long_press_ms` runs its long-press binding whenever one is set, and the
/// normal binding only when there is none.
pub proof fn law_dpad_held_long_runs_its_long_press_binding(
    pre: Mapper,
    axis: u16,
    value: i32,
    now: u64,
    post: Mapper,
    r: Option<String>,
    last: u64,
    start: u64,
)
    requires
        Mapper::dpad_post(pre, axis, value, now, post, r),
        axis == 16 && value == 1,
        pre.dpad_last_event.right == Some(last),
        last <= now,
        now - last <= 300_000_000,
        pre.dpad_sequence_start.right == Some(start),
        start <= now,
        now - start >= pre.long_press_ms * 1_000_000,
    ensures
        r == if pre.dpad_longpress_mappings.right is Some {
            pre.dpad_longpress_mappings.right
        } else {
            pre.dpad_mappings.right
        },
{
}

/// Gas (axis 9) is the right trigger and Brake (axis 10) the left one: on a
/// mapper that has heard nothing from the triggers yet, pulling one past
/// half travel runs that trigger's binding.
pub proof fn law_trigger_pull_runs_its_binding(
    pre: Mapper,
    axis: u16,
    value: i32,
    now: u64,
    post: Mapper,
    r: Option<String>,
)
    requires
        Mapper::trigger_post(pre, axis, value, now, post, r),
        value > 512,
        pre.trigger_state == (PerTrigger::<bool> { lt: false, rt: false }),
        pre.trigger_last_event == (PerTrigger::<Option<u64>> { lt: None, rt: None }),
        pre.last_trigger == (PerTrigger::<Option<u64>> { lt: None, rt: None }),
    ensures
        axis == 9 ==> r == pre.trigger_mappings.rt,
        axis == 10 ==> r == pre.trigger_mappings.lt,
        axis != 9 && axis != 10 ==> r is None,
{
}

/// A trigger kept pressed past `long_press_ms` runs its long-press binding
/// whenever one is set, and falls back to its normal binding only when there
/// is none.
pub proof fn law_trigger_held_long_runs_its_long_press_binding(
    pre: Mapper,
    axis: u16,
    value: i32,
    now: u64,
    post: Mapper,
    r: Option<String>,
    start: u64,
)
    requires
        Mapper::trigger_post(pre, axis, value, now, post, r),
        value > 512,
        axis == 9 ==> pre.trigger_state.rt && pre.trigger_sequence_start.rt == Some(start),
        axis == 10 ==> pre.trigger_state.lt && pre.trigger_sequence_start.lt == Some(start),
        start <= now,
        now - start >= pre.long_press_ms * 1_000_000,
    ensures
        axis == 9 ==> r == if pre.trigger_longpress_mappings.rt is Some {
            pre.trigger_longpress_mappings.rt
        } else {
            pre.trigger_mappings.rt
        },
        axis == 10 ==> r == if pre.trigger_longpress_mappings.lt is Some {
            pre.trigger_longpress_mappings.lt
        } else {
            pre.trigger_mappings.lt
        },
{
}

} // verus!
