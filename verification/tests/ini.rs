use kindle_button_mapper::config::{DpadDirection, Trigger};
use kindle_button_mapper::ini::{read_line_of, Config, Line};

const SAMPLE: &str = "# sample\n\
[device.pad]\n\
name = \"8BitDo Micro gamepad\"\n\
uniq = E4:17:D8:00:00:01\n\
grab = false\n\
keyboard_layout = fr\n\
\n\
[settings]\n\
debounce_ms = 150\n\
long_press_ms = 700\n\
log_buttons = true\n\
keep_awake = false\n\
on_connect = /mnt/us/on.sh\n\
\n\
[buttons]\n\
304 = /mnt/us/next.sh\n\
305=/mnt/us/prev.sh\r\n\
[longpress]\n\
304 = /mnt/us/menu.sh\n\
[dpad]\n\
up = /mnt/us/up.sh\n\
sideways = /mnt/us/never.sh\n\
[triggers_longpress]\n\
rt = /mnt/us/rt.sh\n\
[device]\n\
mouse = true\n\
passthrough = yes\n";

#[test]
fn a_sample_file_is_read() {
    let c = Config::parse(SAMPLE);
    assert_eq!(c.devices.len(), 2);

    let pad = &c.devices[0];
    assert_eq!(pad.id, "pad");
    assert_eq!(pad.name.as_deref(), Some("8BitDo Micro gamepad"));
    assert_eq!(pad.uniq.as_deref(), Some("E4:17:D8:00:00:01"));
    assert!(!pad.grab);
    assert!(pad.grab_explicit);
    assert_eq!(pad.keyboard_layout.as_deref(), Some("fr"));
    assert_eq!(pad.mappings.len(), 2);
    assert_eq!(pad.mappings.get(&304).map(String::as_str), Some("/mnt/us/next.sh"));
    assert_eq!(pad.mappings.get(&305).map(String::as_str), Some("/mnt/us/prev.sh"));
    assert_eq!(pad.long_press_mappings.get(&304).map(String::as_str), Some("/mnt/us/menu.sh"));
    assert_eq!(pad.dpad_mappings.get(DpadDirection::Up).as_deref(), Some("/mnt/us/up.sh"));
    assert!(pad.dpad_mappings.get(DpadDirection::Down).is_none());
    assert_eq!(pad.trigger_longpress_mappings.get(Trigger::RT).as_deref(), Some("/mnt/us/rt.sh"));
    assert!(pad.trigger_mappings.get(Trigger::RT).is_none());

    let second = &c.devices[1];
    assert_eq!(second.id, "device");
    assert!(second.grab);
    assert!(!second.grab_explicit);
    assert!(second.mouse);
    // "yes" is no boolean, so the default stays.
    assert!(!second.passthrough);
    assert!(second.is_unmapped());

    assert_eq!(c.settings.debounce_ms, 150);
    assert_eq!(c.settings.long_press_ms, 700);
    assert_eq!(c.settings.repeat_ms, 100);
    assert!(c.settings.log_buttons);
    assert!(!c.settings.keep_awake);
    assert_eq!(c.settings.on_connect.as_deref(), Some("/mnt/us/on.sh"));
    assert!(c.settings.on_disconnect.is_none());
}

#[test]
fn an_empty_file_has_the_defaults() {
    let c = Config::parse("");
    assert!(c.devices.is_empty());
    assert_eq!(c.settings.debounce_ms, 200);
    assert_eq!(c.settings.long_press_ms, 500);
    assert_eq!(c.settings.repeat_ms, 100);
    assert!(!c.settings.log_buttons);
    assert!(c.settings.keep_awake);
}

#[test]
fn bindings_before_any_device_are_dropped() {
    let c = Config::parse("[buttons]\n304 = a.sh\n[device.k]\n[buttons]\n305 = b.sh\nnotanumber = c.sh\n");
    assert_eq!(c.devices.len(), 1);
    assert_eq!(c.devices[0].mappings.len(), 1);
    assert_eq!(c.devices[0].mappings.get(&305).map(String::as_str), Some("b.sh"));
}

#[test]
fn a_later_binding_replaces_an_earlier_one() {
    let c = Config::parse("[device]\n[buttons]\n304 = a.sh\n304 = b.sh\n");
    assert_eq!(c.devices[0].mappings.get(&304).map(String::as_str), Some("b.sh"));
}

#[test]
fn lines_are_read_by_shape() {
    let l: Vec<char> = "  [ device.x ]  ".chars().collect();
    match read_line_of(&l) {
        Line::Section(n) => assert_eq!(n.iter().collect::<String>(), "device.x"),
        _ => panic!("a header"),
    }
    let l: Vec<char> = " key = \"a = b\" ".chars().collect();
    match read_line_of(&l) {
        Line::Entry(k, v) => {
            assert_eq!(k.iter().collect::<String>(), "key");
            assert_eq!(v.iter().collect::<String>(), "a = b");
        }
        _ => panic!("an entry"),
    }
    for blank in ["", "   ", "# c = d", "; [x]", "no equals sign"] {
        let l: Vec<char> = blank.chars().collect();
        assert!(matches!(read_line_of(&l), Line::Blank));
    }
}
