use evdev::{AttributeSet, Key};
use kindle_button_mapper::input::{is_event_node, is_gamepad, is_own_node, is_touch_device, mappable_keys, uniq_matches, InputHandler, Node};

#[test]
fn a_mouse_node_loses_to_the_keyboard_node() {
    let mouse = AttributeSet::from_iter([Key::BTN_LEFT, Key::BTN_RIGHT, Key::BTN_MIDDLE]);
    let keyboard = AttributeSet::from_iter([Key::KEY_A, Key::KEY_PAGEUP, Key::KEY_PAGEDOWN]);
    let gamepad = AttributeSet::from_iter([Key::BTN_SOUTH, Key::BTN_EAST]);

    assert_eq!(mappable_keys(Some(&mouse)), 0);
    assert_eq!(mappable_keys(Some(&keyboard)), 3);
    assert_eq!(mappable_keys(Some(&gamepad)), 2);
    assert_eq!(mappable_keys(None), 0);
}

#[test]
fn uniq_ignores_suffix_and_case() {
    assert!(uniq_matches("E0:F6:B5:BC:1C:7F/P", "E0:F6:B5:BC:1C:7F"));
    assert!(uniq_matches("E0:F6:B5:BC:1C:7F/P", "e0:f6:b5:bc:1c:7f"));
    assert!(uniq_matches("E0:F6:B5:BC:1C:7F", "E0:F6:B5:BC:1C:7F/P"));
    assert!(!uniq_matches("E0:F6:B5:BC:1C:7F/P", "AA:BB:CC:DD:EE:FF"));
    assert!(!uniq_matches("", "AA:BB:CC:DD:EE:FF"));
    assert!(!uniq_matches("E0:F6:B5:BC:1C:7F/P", ""));
}

#[test]
fn uniq_matching_goes_both_ways() {
    let pairs = [("E0:F6/P", "e0:f6"), ("ab", "AB/x"), ("ab", "ac")];
    for (a, b) in pairs {
        assert_eq!(uniq_matches(a, b), uniq_matches(b, a));
    }
}

#[test]
fn a_gamepad_has_south_or_a_hat() {
    let pad = AttributeSet::from_iter([Key::BTN_SOUTH]);
    let kbd = AttributeSet::from_iter([Key::KEY_A]);
    assert!(is_gamepad(Some(&pad), None));
    assert!(!is_gamepad(Some(&kbd), None));
    assert!(!is_gamepad(None, None));
    let hat = AttributeSet::from_iter([evdev::AbsoluteAxisType::ABS_HAT0X]);
    assert!(is_gamepad(Some(&kbd), Some(&hat)));
}

fn node(file: &str, name: &str, uniq: &str, mappable: usize) -> Node {
    Node { file_name: file.to_string(), name: name.to_string(), uniq: uniq.to_string(), mappable }
}

#[test]
fn the_node_with_the_most_mappable_keys_wins() {
    let h = InputHandler::new(Some("Pad".to_string()), None, true);
    let nodes = vec![
        node("event1", "Pad", "", 0),
        node("event2", "Pad", "", 5),
        node("mouse0", "Pad", "", 9),
        node("event3", "Other", "", 9),
        node("event4", "Pad", "", 5),
    ];
    assert_eq!(h.pick_node(&nodes), Some(1));
}

#[test]
fn uniq_wins_over_name_and_our_own_keyboard_is_never_read() {
    let h = InputHandler::new(Some("Pad".to_string()), Some("aa:bb".to_string()), false);
    assert!(h.matches_device("Renamed", "AA:BB/P"));
    assert!(!h.matches_device("Pad", "cc:dd"));
    assert!(!h.matches_device("kindle-button-mapper", "AA:BB"));
    let anyone = InputHandler::new(None, Some(String::new()), false);
    assert!(anyone.matches_device("whatever", ""));
    assert!(!anyone.has_identity());
    assert!(h.has_identity());
    assert_eq!(h.pick_node(&vec![node("event0", "kindle-button-mapper", "AA:BB", 3)]), None);
}

#[test]
fn event_nodes_and_our_own_keyboard_are_told_apart() {
    assert!(is_event_node("event0"));
    assert!(is_event_node("event12"));
    assert!(!is_event_node("mouse0"));
    assert!(!is_event_node("by-id"));
    assert!(is_own_node("kindle-button-mapper"));
    assert!(!is_own_node("kindle-button-mapper2"));
}

#[test]
fn a_touch_device_reports_btn_touch() {
    let touch = AttributeSet::from_iter([Key::BTN_TOUCH, Key::BTN_TOOL_FINGER]);
    let pad = AttributeSet::from_iter([Key::BTN_SOUTH, Key::BTN_EAST]);
    assert!(is_touch_device(Some(&touch)));
    assert!(!is_touch_device(Some(&pad)));
    assert!(!is_touch_device(None));
}
