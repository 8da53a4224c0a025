//! The decisions a device worker makes around its event loop: who holds the
//! device, what relaying stays on, how a stick's raw value becomes a
//! percentage, which handler an event goes to, and when to keep the screen
//! awake.

use vstd::prelude::*;
use std::collections::HashMap;
use crate::config::DeviceConfig;

verus! {

broadcast use vstd::std_specs::hash::group_hash_axioms;

/// Whether the daemon should hold this device exclusively. An explicit
/// `grab` in the file is taken at its word; without one only a gamepad or a
/// mouse is claimed, since grabbing a keyboard would swallow every key
/// nothing maps.
pub fn effective_grab(cfg: &DeviceConfig, gamepad: bool) -> (r: bool)
    ensures
        r == (cfg.grab && (cfg.grab_explicit || gamepad || cfg.mouse)),
{
    cfg.grab && (cfg.grab_explicit || gamepad || cfg.mouse)
}

/// What giving up relaying does to a config (see `downgrade_relay`).
pub open spec fn downgrade_post(pre: DeviceConfig, grab: bool, post: DeviceConfig, r: bool) -> bool {
    &&& r == (!grab && (pre.passthrough || pre.mouse))
    &&& post.passthrough == (pre.passthrough && !r)
    &&& post.mouse == (pre.mouse && !r)
    &&& post.id == pre.id
    &&& post.name == pre.name
    &&& post.uniq == pre.uniq
    &&& post.grab == pre.grab
    &&& post.grab_explicit == pre.grab_explicit
    &&& post.keyboard_layout == pre.keyboard_layout
    &&& post.mappings == pre.mappings
    &&& post.long_press_mappings == pre.long_press_mappings
    &&& post.dpad_mappings == pre.dpad_mappings
    &&& post.dpad_longpress_mappings == pre.dpad_longpress_mappings
    &&& post.trigger_mappings == pre.trigger_mappings
    &&& post.trigger_longpress_mappings == pre.trigger_longpress_mappings
}

/// Relaying a device we do not hold would deliver everything twice. True
/// when relaying was turned off, so the mapper has to be rebuilt.
pub fn downgrade_relay(cfg: &mut DeviceConfig, grab: bool) -> (r: bool)
    ensures
        downgrade_post(*old(cfg), grab, *final(cfg), r),
{
    if grab || !(cfg.passthrough || cfg.mouse) {
        return false;
    }
    cfg.passthrough = false;
    cfg.mouse = false;
    true
}

/// The keyboard layout to apply when this device connects: the one its
/// section names, unless that is empty (which keeps the system default).
pub open spec fn connect_layout_spec(cfg: DeviceConfig) -> Option<String> {
    match cfg.keyboard_layout {
        Some(l) => if l@.len() > 0 { Some(l) } else { None },
        None => None,
    }
}

pub fn connect_layout(cfg: &DeviceConfig) -> (r: Option<String>)
    ensures
        r == connect_layout_spec(*cfg),
{
    match &cfg.keyboard_layout {
        Some(l) => if crate::text::chars_of(l.as_str()).len() > 0 { Some(l.clone()) } else { None },
        None => None,
    }
}

/// Rust's integer division, which rounds toward zero.
pub open spec fn div_trunc(a: int, b: int) -> int {
    if a >= 0 { a / b } else { -((-a) / b) }
}

/// Centre and half-travel of an axis with this range; pads disagree on
/// range, so the mapper sees a percentage of half-travel.
pub open spec fn stick_range_spec(minimum: int, maximum: int) -> (int, int) {
    let half = div_trunc(maximum - minimum, 2);
    (div_trunc(minimum + maximum, 2), if half > 1 { half } else { 1 })
}

pub fn stick_range(minimum: i32, maximum: i32) -> (r: (i32, i32))
    requires
        i32::MIN <= maximum - minimum <= i32::MAX,
        i32::MIN <= minimum + maximum <= i32::MAX,
    ensures
        r.0 == stick_range_spec(minimum as int, maximum as int).0,
        r.1 == stick_range_spec(minimum as int, maximum as int).1,
{
    let span = maximum - minimum;
    let half = if span >= 0 { span / 2 } else { -((-(span as i64)) / 2) as i32 };
    let sum = minimum + maximum;
    let centre = if sum >= 0 { sum / 2 } else { -((-(sum as i64)) / 2) as i32 };
    (centre, if half > 1 { half } else { 1 })
}

/// Rust's integer division for any non-zero divisor, rounding toward zero.
pub open spec fn quot(a: int, b: int) -> int {
    let q = (if a >= 0 { a } else { -a }) / (if b >= 0 { b } else { -b });
    if (a >= 0) == (b > 0) { q } else { -q }
}

pub open spec fn clamp100(x: int) -> int {
    if x < -100 { -100 } else if x > 100 { 100 } else { x }
}

/// Whether `stick_percent` can compute for `code` without overflow or a
/// division by zero.
pub open spec fn percent_defined(ranges: Map<u16, (i32, i32)>, code: u16, value: i32) -> bool {
    ranges.contains_key(code) ==> {
        let (centre, half) = ranges[code];
        &&& half != 0
        &&& i32::MIN <= (value - centre) * 100 <= i32::MAX
        &&& !((value - centre) * 100 == i32::MIN && half == -1)
    }
}

/// A raw axis value as a percentage of half-travel from the centre, within
/// -100..=100; 0 for an axis whose range is unknown.
pub fn stick_percent(ranges: &HashMap<u16, (i32, i32)>, code: u16, value: i32) -> (r: i32)
    requires
        percent_defined(ranges@, code, value),
    ensures
        r == if ranges@.contains_key(code) {
            clamp100(quot((value - ranges@[code].0) * 100, ranges@[code].1 as int))
        } else {
            0
        },
{
    match ranges.get(&code) {
        Some(range) => {
            let (centre, half) = *range;
            let num: i64 = (value as i64 - centre as i64) * 100;
            let a: i64 = if num >= 0 { num } else { -num };
            let b: i64 = if half >= 0 { half as i64 } else { -(half as i64) };
            let q: i64 = a / b;
            let v: i64 = if (num >= 0) == (half > 0) { q } else { -q };
            if v < -100 {
                -100
            } else if v > 100 {
                100
            } else {
                v as i32
            }
        },
        None => 0,
    }
}

/// How often activity re-arms the screensaver timer.
pub const KEEP_AWAKE_INTERVAL_NS: u64 = 60_000_000_000;

/// Whether activity at `now` should re-arm the screensaver timer: never
/// done yet, or done at least a minute ago.
pub fn keep_awake_due(last_poke: Option<u64>, now: u64) -> (r: bool)
    ensures
        r == match last_poke {
            None => true,
            Some(t) => (if now >= t { now - t } else { 0 }) >= KEEP_AWAKE_INTERVAL_NS,
        },
{
    match last_poke {
        None => true,
        Some(t) => (if now >= t { now - t } else { 0 }) >= KEEP_AWAKE_INTERVAL_NS,
    }
}

/// How long a capture's pause stays in force after it was asked for: past
/// the longest capture and its settling time, so a pause left behind by a
/// helper that died mid-capture does not keep a device released for good.
pub const PAUSE_FRESH_NS: u64 = 20_000_000_000;

/// Whether a pause asked for at `asked` still holds at `now`.
pub fn pause_in_force(asked: u64, now: u64) -> (r: bool)
    ensures
        r == ((if now >= asked { now - asked } else { 0 }) < PAUSE_FRESH_NS),
{
    (if now >= asked { now - asked } else { 0 }) < PAUSE_FRESH_NS
}

/// An input event as the event loop sees it, each with its code.
#[derive(PartialEq, Eq, Debug, Clone, Copy, Structural)]
pub enum EventKind {
    Sync,
    Key(u16),
    Abs(u16),
    Rel(u16),
    Other,
}

/// Where the event loop sends an event.
#[derive(PartialEq, Debug)]
pub enum Route {
    /// End of a report; also ends a relayed pointer report when `pointer`.
    Sync { pointer: bool },
    /// BTN_TOUCH: a contact starts (true) or ends.
    Touch(bool),
    Press(u16),
    Held(u16),
    Release(u16),
    Dpad(u16, i32),
    Trigger(u16, i32),
    /// A touch coordinate (`horizontal` for X) on this axis.
    TouchMove { horizontal: bool, code: u16 },
    Stick(u16),
    /// Relative motion relayed to the virtual pointer.
    Pointer(u16, i32),
    Ignore,
}

pub const BTN_TOUCH: u16 = 330;

/// Which handler an event goes to, and whether it counts as activity. On a
/// touch device ABS_X/ABS_Y are the contact, on a pad a stick; relative
/// motion is only relayed while we hold a mouse.
pub open spec fn route_spec(kind: EventKind, value: i32, touch_device: bool, relay: bool) -> (Route, bool) {
    match kind {
        EventKind::Sync => (Route::Sync { pointer: relay }, false),
        EventKind::Key(k) => if k == BTN_TOUCH {
            (Route::Touch(value == 1), true)
        } else if value == 1 {
            (Route::Press(k), true)
        } else if value == 2 {
            (Route::Held(k), true)
        } else if value == 0 {
            (Route::Release(k), true)
        } else {
            (Route::Ignore, true)
        },
        EventKind::Abs(c) => if c == 16 || c == 17 {
            (Route::Dpad(c, value), true)
        } else if c == 9 || c == 10 {
            (Route::Trigger(c, value), true)
        } else if (c == 0 || c == 1) && touch_device {
            (Route::TouchMove { horizontal: c == 0, code: c }, true)
        } else if c == 0 || c == 1 || c == 3 || c == 4 {
            (Route::Stick(c), true)
        } else if c == 53 || c == 54 {
            (Route::TouchMove { horizontal: c == 53, code: c }, true)
        } else {
            (Route::Ignore, false)
        },
        EventKind::Rel(a) => if relay { (Route::Pointer(a, value), true) } else { (Route::Ignore, false) },
        EventKind::Other => (Route::Ignore, false),
    }
}

pub fn route(kind: EventKind, value: i32, touch_device: bool, relay: bool) -> (r: (Route, bool))
    ensures
        r == route_spec(kind, value, touch_device, relay),
{
    match kind {
        EventKind::Sync => (Route::Sync { pointer: relay }, false),
        EventKind::Key(k) => if k == BTN_TOUCH {
            (Route::Touch(value == 1), true)
        } else if value == 1 {
            (Route::Press(k), true)
        } else if value == 2 {
            (Route::Held(k), true)
        } else if value == 0 {
            (Route::Release(k), true)
        } else {
            (Route::Ignore, true)
        },
        EventKind::Abs(c) => if c == 16 || c == 17 {
            (Route::Dpad(c, value), true)
        } else if c == 9 || c == 10 {
            (Route::Trigger(c, value), true)
        } else if (c == 0 || c == 1) && touch_device {
            (Route::TouchMove { horizontal: c == 0, code: c }, true)
        } else if c == 0 || c == 1 || c == 3 || c == 4 {
            (Route::Stick(c), true)
        } else if c == 53 || c == 54 {
            (Route::TouchMove { horizontal: c == 53, code: c }, true)
        } else {
            (Route::Ignore, false)
        },
        EventKind::Rel(a) => if relay { (Route::Pointer(a, value), true) } else { (Route::Ignore, false) },
        EventKind::Other => (Route::Ignore, false),
    }
}

/// What to do with the exclusive grab around a capture pause.
#[derive(PartialEq, Eq, Debug, Clone, Copy, Structural)]
pub enum GrabChange {
    /// Capture is reading the device: let go of it.
    Release,
    /// Capture is over: take the grab back.
    Retake,
    Keep,
}

/// While the settings app captures a button the grab is released, and it is
/// restored after.
pub open spec fn pause_grab_spec(paused: bool, grab: bool, grabbed: bool) -> GrabChange {
    if paused && grabbed {
        GrabChange::Release
    } else if !paused && grab && !grabbed {
        GrabChange::Retake
    } else {
        GrabChange::Keep
    }
}

pub fn pause_grab(paused: bool, grab: bool, grabbed: bool) -> (r: GrabChange)
    ensures
        r == pause_grab_spec(paused, grab, grabbed),
{
    if paused && grabbed {
        GrabChange::Release
    } else if !paused && grab && !grabbed {
        GrabChange::Retake
    } else {
        GrabChange::Keep
    }
}

/// A capture pause takes the grab away and its end gives it back: a held
/// device is released while the pause lasts, and taken again on the first
/// look after it is over.
pub proof fn law_capture_pause_gives_the_grab_back(grab: bool)
    ensures
        grab ==> pause_grab_spec(true, grab, true) == GrabChange::Release,
        grab ==> pause_grab_spec(false, grab, false) == GrabChange::Retake,
        pause_grab_spec(true, grab, false) == GrabChange::Keep,
        pause_grab_spec(false, grab, grab) == GrabChange::Keep,
{
}

/// How a worker treats a device it just opened.
pub struct ConnectPlan {
    /// Unmapped gamepad: give it the default bindings.
    pub default_layout: bool,
    /// Unmapped keyboard with no layout to apply: leave it alone until a
    /// reload maps something.
    pub park: bool,
    /// Whether the device ends up held.
    pub grab: bool,
    /// The grab taken at open has to be given back.
    pub ungrab: bool,
    /// The keyboard layout to apply, on every connect.
    pub layout: Option<String>,
}

/// Only the opened node says whether this is a pad or a keyboard, and the
/// two want opposite treatment.
pub fn connect_plan(cfg: &DeviceConfig, gamepad: bool, grabbed_at_open: bool) -> (r: ConnectPlan)
    ensures
        r.default_layout == (cfg.spec_unmapped() && gamepad),
        r.park == (cfg.spec_unmapped() && !gamepad && cfg.keyboard_layout is None),
        r.grab == (cfg.grab && (cfg.grab_explicit || gamepad || cfg.mouse) && grabbed_at_open),
        r.ungrab == (grabbed_at_open && !r.grab),
        r.layout == connect_layout_spec(*cfg),
{
    let unmapped = cfg.is_unmapped();
    let grab = effective_grab(cfg, gamepad) && grabbed_at_open;
    ConnectPlan {
        default_layout: unmapped && gamepad,
        park: unmapped && !gamepad && cfg.keyboard_layout.is_none(),
        grab,
        ungrab: grabbed_at_open && !grab,
        layout: connect_layout(cfg),
    }
}

/// What a worker does about a reload when it looks between reads.
#[derive(PartialEq, Eq, Debug, Clone, Copy, Structural)]
pub enum ReloadStep {
    /// No reload since the worker last looked.
    Stay,
    /// The config no longer lists the device: give it back.
    Remove,
    /// Apply the device's fresh config. When `change_grab`, first take the
    /// grab (`want`) or give it up (`!want`), so a changed setting bites now
    /// rather than on the next reconnect.
    Apply { want: bool, change_grab: bool },
}

pub open spec fn reload_step_spec(seen: u64, current: u64, fresh: Option<DeviceConfig>, gamepad: bool, grab: bool) -> ReloadStep {
    if seen == current {
        ReloadStep::Stay
    } else {
        match fresh {
            None => ReloadStep::Remove,
            Some(c) => {
                let want = c.grab && (c.grab_explicit || gamepad || c.mouse);
                ReloadStep::Apply { want, change_grab: want != grab }
            },
        }
    }
}

/// The reload step of the event loop, from the generation the worker saw
/// last, the current one, the device's config in it (None when removed),
/// whether the device is a pad and whether it is held now.
pub fn reload_step(seen: u64, current: u64, fresh: Option<&DeviceConfig>, gamepad: bool, grab: bool) -> (r: ReloadStep)
    ensures
        r == reload_step_spec(seen, current, match fresh { Some(c) => Some(*c), None => None }, gamepad, grab),
{
    if seen == current {
        return ReloadStep::Stay;
    }
    match fresh {
        None => ReloadStep::Remove,
        Some(c) => {
            let want = effective_grab(c, gamepad);
            ReloadStep::Apply { want, change_grab: want != grab }
        },
    }
}

/// Finishes applying a reload: whether the device is held now (the wanted
/// grab when it was changed, else as before), and the fresh config with
/// relaying turned off when the device is not held. The result is whether
/// relaying was turned off.
pub fn finish_reload(fresh: &mut DeviceConfig, grab: bool, want: bool, changed: bool) -> (r: (bool, bool))
    ensures
        r.0 == if changed { want } else { grab },
        downgrade_post(*old(fresh), r.0, *final(fresh), r.1),
{
    let held = if changed { want } else { grab };
    let off = downgrade_relay(fresh, held);
    (held, off)
}

/// Turning relaying off without the grab is done once: afterwards nothing
/// is left to turn off.
pub proof fn law_downgrade_is_idempotent(c0: DeviceConfig, grab: bool, c1: DeviceConfig, r1: bool, c2: DeviceConfig, r2: bool)
    requires
        downgrade_post(c0, grab, c1, r1),
        downgrade_post(c1, grab, c2, r2),
    ensures
        !r2,
        !grab ==> !c1.passthrough && !c1.mouse,
{
}

} // verus!
