use kindle_button_mapper::config::{DeviceConfig, PerDirection, PerTrigger};
use kindle_button_mapper::worker::{
    connect_plan, downgrade_relay, effective_grab, keep_awake_due, pause_grab, pause_in_force, route, connect_layout, finish_reload, reload_step, ReloadStep, stick_percent, stick_range,
    EventKind, GrabChange, Route,
};
use std::collections::HashMap;

fn device() -> DeviceConfig {
    DeviceConfig {
        id: "d".to_string(),
        name: None,
        uniq: None,
        grab: true,
        grab_explicit: false,
        mouse: false,
        passthrough: true,
        keyboard_layout: None,
        mappings: HashMap::new(),
        long_press_mappings: HashMap::new(),
        dpad_mappings: PerDirection { up: None, down: None, left: None, right: None },
        dpad_longpress_mappings: PerDirection { up: None, down: None, left: None, right: None },
        trigger_mappings: PerTrigger { lt: None, rt: None },
        trigger_longpress_mappings: PerTrigger { lt: None, rt: None },
    }
}

#[test]
fn only_pads_and_mice_are_grabbed_unless_the_file_says_so() {
    let mut c = device();
    assert!(effective_grab(&c, true));
    assert!(!effective_grab(&c, false));
    c.grab_explicit = true;
    assert!(effective_grab(&c, false));
    c.grab = false;
    assert!(!effective_grab(&c, true));
}

#[test]
fn relaying_is_dropped_without_the_grab() {
    let mut c = device();
    assert!(!downgrade_relay(&mut c, true));
    assert!(c.passthrough);
    assert!(downgrade_relay(&mut c, false));
    assert!(!c.passthrough && !c.mouse);
    assert!(!downgrade_relay(&mut c, false));
}

#[test]
fn stick_values_become_percentages() {
    assert_eq!(stick_range(0, 255), (127, 127));
    assert_eq!(stick_range(-32768, 32767), (0, 32767));
    assert_eq!(stick_range(5, 5), (5, 1));
    assert_eq!(stick_range(-7, 0), (-3, 3));
    let mut ranges = HashMap::new();
    ranges.insert(0u16, (127, 127));
    ranges.insert(1u16, (0, -10));
    assert_eq!(stick_percent(&ranges, 0, 254), 100);
    assert_eq!(stick_percent(&ranges, 0, 0), -100);
    assert_eq!(stick_percent(&ranges, 0, 190), 49);
    assert_eq!(stick_percent(&ranges, 0, 64), -49);
    assert_eq!(stick_percent(&ranges, 1, 3), -30);
    assert_eq!(stick_percent(&ranges, 3, 100), 0);
}

#[test]
fn keep_awake_pokes_at_most_once_a_minute() {
    assert!(keep_awake_due(None, 5));
    assert!(!keep_awake_due(Some(0), 59_999_999_999));
    assert!(keep_awake_due(Some(0), 60_000_000_000));
    assert!(!keep_awake_due(Some(10), 5));
}

#[test]
fn events_go_to_their_handlers() {
    assert_eq!(route(EventKind::Sync, 0, false, true), (Route::Sync { pointer: true }, false));
    assert_eq!(route(EventKind::Key(330), 1, true, false), (Route::Touch(true), true));
    assert_eq!(route(EventKind::Key(30), 1, false, false), (Route::Press(30), true));
    assert_eq!(route(EventKind::Key(30), 2, false, false), (Route::Held(30), true));
    assert_eq!(route(EventKind::Key(30), 0, false, false), (Route::Release(30), true));
    assert_eq!(route(EventKind::Key(30), 7, false, false), (Route::Ignore, true));
    assert_eq!(route(EventKind::Abs(16), -1, false, false), (Route::Dpad(16, -1), true));
    assert_eq!(route(EventKind::Abs(10), 900, false, false), (Route::Trigger(10, 900), true));
    assert_eq!(route(EventKind::Abs(0), 5, true, false), (Route::TouchMove { horizontal: true, code: 0 }, true));
    assert_eq!(route(EventKind::Abs(1), 5, false, false), (Route::Stick(1), true));
    assert_eq!(route(EventKind::Abs(54), 5, false, false), (Route::TouchMove { horizontal: false, code: 54 }, true));
    assert_eq!(route(EventKind::Abs(40), 5, false, false), (Route::Ignore, false));
    assert_eq!(route(EventKind::Rel(0), 3, false, true), (Route::Pointer(0, 3), true));
    assert_eq!(route(EventKind::Rel(0), 3, false, false), (Route::Ignore, false));
    assert_eq!(route(EventKind::Other, 3, false, true), (Route::Ignore, false));
}

#[test]
fn capture_pauses_release_and_retake_the_grab() {
    assert_eq!(pause_grab(true, true, true), GrabChange::Release);
    assert_eq!(pause_grab(false, true, false), GrabChange::Retake);
    assert_eq!(pause_grab(false, true, true), GrabChange::Keep);
    assert_eq!(pause_grab(true, false, false), GrabChange::Keep);
}

#[test]
fn an_unmapped_keyboard_is_parked_and_an_unmapped_pad_gets_defaults() {
    let c = device();
    let pad = connect_plan(&c, true, true);
    assert!(pad.default_layout && !pad.park && pad.grab && !pad.ungrab);
    let kbd = connect_plan(&c, false, true);
    assert!(!kbd.default_layout && kbd.park && !kbd.grab && kbd.ungrab);
}

#[test]
fn a_capture_pause_lapses_after_twenty_seconds() {
    assert!(pause_in_force(1_000, 1_000));
    assert!(pause_in_force(0, 19_999_999_999));
    assert!(!pause_in_force(0, 20_000_000_000));
    // A clock that went back counts as no time passed.
    assert!(pause_in_force(5_000, 1_000));
}

#[test]
fn each_connect_applies_the_devices_own_layout() {
    let mut c = device();
    assert_eq!(connect_layout(&c), None);
    assert_eq!(connect_plan(&c, false, true).layout, None);
    c.keyboard_layout = Some("fr".to_string());
    assert_eq!(connect_layout(&c).as_deref(), Some("fr"));
    let plan = connect_plan(&c, false, true);
    assert_eq!(plan.layout.as_deref(), Some("fr"));
    // A keyboard with a layout but no bindings is still served, for the layout.
    assert!(!plan.park);
    c.keyboard_layout = Some(String::new());
    assert_eq!(connect_layout(&c), None);
}

#[test]
fn a_reload_step_follows_the_generation_and_the_fresh_config() {
    let mut c = device();
    assert_eq!(reload_step(3, 3, Some(&c), false, true), ReloadStep::Stay);
    assert_eq!(reload_step(3, 3, None, false, true), ReloadStep::Stay);
    assert_eq!(reload_step(3, 4, None, false, true), ReloadStep::Remove);
    // A keyboard whose grab was not asked for explicitly is shared.
    assert_eq!(reload_step(3, 4, Some(&c), false, true), ReloadStep::Apply { want: false, change_grab: true });
    assert_eq!(reload_step(3, 4, Some(&c), true, true), ReloadStep::Apply { want: true, change_grab: false });
    c.grab_explicit = true;
    assert_eq!(reload_step(u64::MAX, 0, Some(&c), false, false), ReloadStep::Apply { want: true, change_grab: true });
}

#[test]
fn finishing_a_reload_keeps_relaying_only_while_held() {
    let mut c = device();
    c.passthrough = true;
    let (held, off) = finish_reload(&mut c, true, false, true);
    assert!(!held && off && !c.passthrough);
    let mut c = device();
    c.passthrough = true;
    // The grab could not be given up, so the device is still held.
    let (held, off) = finish_reload(&mut c, true, false, false);
    assert!(held && !off && c.passthrough);
}
