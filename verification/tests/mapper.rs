use evdev::Key;
use kindle_button_mapper::config::{DeviceConfig, DpadDirection, PerDirection, PerTrigger, Trigger};
use kindle_button_mapper::mapper::Mapper;
use std::collections::HashMap;

const MS: u64 = 1_000_000;

fn config() -> DeviceConfig {
    let mut mappings = HashMap::new();
    mappings.insert(Key::KEY_PAGEDOWN.code(), "next".to_string());
    mappings.insert(Key::KEY_PAGEUP.code(), "prev".to_string());
    let mut long = HashMap::new();
    long.insert(Key::KEY_PAGEUP.code(), "menu".to_string());
    DeviceConfig {
        id: "pad".to_string(),
        name: Some("Pad".to_string()),
        uniq: None,
        grab: true,
        grab_explicit: false,
        mouse: false,
        passthrough: false,
        keyboard_layout: None,
        mappings,
        long_press_mappings: long,
        dpad_mappings: PerDirection { up: Some("up".into()), down: None, left: Some("left".into()), right: None },
        dpad_longpress_mappings: PerDirection { up: Some("top".into()), down: None, left: None, right: None },
        trigger_mappings: PerTrigger { lt: Some("lt".into()), rt: None },
        trigger_longpress_mappings: PerTrigger { lt: None, rt: None },
    }
}

fn mapper() -> Mapper {
    Mapper::new(&config(), 200, 500, 100, false)
}

#[test]
fn a_short_press_runs_the_binding_on_release() {
    let mut m = mapper();
    assert!(m.is_mapped(Key::KEY_PAGEDOWN));
    assert!(!m.is_mapped(Key::KEY_A));
    m.handle_press(Key::KEY_PAGEDOWN, 1000 * MS);
    assert_eq!(m.handle_held(Key::KEY_PAGEDOWN, 1100 * MS), None);
    assert_eq!(m.handle_release(Key::KEY_PAGEDOWN), Some("next".to_string()));
    // Unbound keys run nothing.
    m.handle_press(Key::KEY_A, 2000 * MS);
    assert_eq!(m.handle_release(Key::KEY_A), None);
}

#[test]
fn a_bounce_inside_the_debounce_window_runs_nothing() {
    let mut m = mapper();
    m.handle_press(Key::KEY_PAGEDOWN, 1000 * MS);
    assert_eq!(m.handle_release(Key::KEY_PAGEDOWN), Some("next".to_string()));
    m.handle_press(Key::KEY_PAGEDOWN, 1150 * MS);
    assert_eq!(m.handle_release(Key::KEY_PAGEDOWN), None);
    m.handle_press(Key::KEY_PAGEDOWN, 1200 * MS);
    assert_eq!(m.handle_release(Key::KEY_PAGEDOWN), Some("next".to_string()));
}

#[test]
fn a_long_press_fires_once_and_suppresses_the_release() {
    let mut m = mapper();
    m.handle_press(Key::KEY_PAGEUP, 1000 * MS);
    assert_eq!(m.handle_held(Key::KEY_PAGEUP, 1499 * MS), None);
    assert_eq!(m.handle_held(Key::KEY_PAGEUP, 1500 * MS), Some("menu".to_string()));
    // After the long press, holding repeats the normal binding every 100 ms.
    assert_eq!(m.handle_held(Key::KEY_PAGEUP, 1550 * MS), None);
    assert_eq!(m.handle_held(Key::KEY_PAGEUP, 1600 * MS), Some("prev".to_string()));
    assert_eq!(m.handle_release(Key::KEY_PAGEUP), None);
}

#[test]
fn holding_repeats_when_there_is_no_long_press_binding() {
    let mut m = mapper();
    m.handle_press(Key::KEY_PAGEDOWN, 0);
    assert_eq!(m.handle_held(Key::KEY_PAGEDOWN, 600 * MS), Some("next".to_string()));
    assert_eq!(m.handle_held(Key::KEY_PAGEDOWN, 650 * MS), None);
    assert_eq!(m.handle_held(Key::KEY_PAGEDOWN, 700 * MS), Some("next".to_string()));
    assert_eq!(m.handle_release(Key::KEY_PAGEDOWN), None);
    let mut no_repeat = Mapper::new(&config(), 200, 500, 0, false);
    no_repeat.handle_press(Key::KEY_PAGEDOWN, 0);
    assert_eq!(no_repeat.handle_held(Key::KEY_PAGEDOWN, 600 * MS), None);
    assert_eq!(no_repeat.handle_release(Key::KEY_PAGEDOWN), Some("next".to_string()));
}

#[test]
fn the_dpad_treats_quick_repeats_as_one_hold() {
    let mut m = mapper();
    assert_eq!(m.handle_dpad(17, -1, 1000 * MS), Some("up".to_string()));
    assert_eq!(m.handle_dpad(17, 0, 1050 * MS), None);
    // Within 300 ms of the last event: a continuation, not yet long.
    assert_eq!(m.handle_dpad(17, -1, 1200 * MS), None);
    assert_eq!(m.handle_dpad(17, 0, 1250 * MS), None);
    // Past the long-press threshold: the long-press binding, every time.
    assert_eq!(m.handle_dpad(17, -1, 1500 * MS), Some("top".to_string()));
    assert_eq!(m.handle_dpad(17, -1, 1600 * MS), Some("top".to_string()));
    assert!(m.dpad_longpress_fired.up);
    // A long gap starts a new sequence.
    assert_eq!(m.handle_dpad(17, -1, 3000 * MS), Some("up".to_string()));
    // Left has no long binding, so a hold repeats the normal one.
    assert_eq!(m.handle_dpad(16, -1, 5000 * MS), Some("left".to_string()));
    assert_eq!(m.handle_dpad(16, -1, 5250 * MS), None);
    assert_eq!(m.handle_dpad(16, -1, 5500 * MS), Some("left".to_string()));
    assert_eq!(m.handle_dpad(18, 1, 6000 * MS), None);
    assert_eq!(*m.dpad_last_event.get(DpadDirection::Left), Some(5500 * MS));
}

#[test]
fn a_trigger_fires_past_half_travel() {
    let mut m = mapper();
    assert_eq!(m.handle_trigger(10, 400, 1000 * MS), None);
    assert_eq!(m.handle_trigger(10, 600, 1000 * MS), Some("lt".to_string()));
    assert!(*m.trigger_state.get(Trigger::LT));
    assert_eq!(m.handle_trigger(10, 900, 1100 * MS), None);
    assert_eq!(m.handle_trigger(10, 900, 1500 * MS), Some("lt".to_string()));
    assert_eq!(m.handle_trigger(10, 0, 1600 * MS), None);
    assert!(!*m.trigger_state.get(Trigger::LT));
    // Right trigger has no binding; other axes are not triggers.
    assert_eq!(m.handle_trigger(9, 1000, 2000 * MS), None);
    assert_eq!(m.handle_trigger(11, 1000, 2000 * MS), None);
}
