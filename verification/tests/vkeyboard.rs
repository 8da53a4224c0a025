use kindle_button_mapper::vkeyboard::{major_minor, supported_keys};

#[test]
fn the_keyboard_offers_every_key_but_no_buttons() {
    let keys = supported_keys();
    assert_eq!(keys.len(), 255 + 352);
    assert_eq!(keys[0], 1);
    assert_eq!(keys[254], 0xff);
    assert_eq!(keys[255], 0x160);
    assert_eq!(*keys.last().unwrap(), 0x2bf);
    assert!(!keys.contains(&0x110));
    assert!(!keys.contains(&0x130));
}

#[test]
fn device_numbers_are_read_from_sysfs_text() {
    assert_eq!(major_minor("13:70\n"), Some(("13".to_string(), "70".to_string())));
    assert_eq!(major_minor("garbage"), None);
}
