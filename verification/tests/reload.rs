use kindle_button_mapper::config::{DeviceConfig, PerDirection, PerTrigger};
use kindle_button_mapper::reload::{claim, device_config, generation, poll, publish, settings, Registry};
use std::collections::HashMap;

#[derive(Clone, Default)]
struct Settings {
    gesture_templates: Vec<(String, Vec<(f32, f32)>)>,
    gesture_tolerance: f32,
}

fn device(id: &str) -> DeviceConfig {
    DeviceConfig {
        id: id.to_string(),
        name: None,
        uniq: None,
        grab: true,
        grab_explicit: false,
        mouse: false,
        passthrough: false,
        keyboard_layout: None,
        mappings: HashMap::new(),
        long_press_mappings: HashMap::new(),
        dpad_mappings: PerDirection { up: None, down: None, left: None, right: None },
        dpad_longpress_mappings: PerDirection { up: None, down: None, left: None, right: None },
        trigger_mappings: PerTrigger { lt: None, rt: None },
        trigger_longpress_mappings: PerTrigger { lt: None, rt: None },
    }
}

#[test]
fn a_reload_refreshes_the_gestures_workers_read() {
    let mut reg: Registry<Settings> = Registry::new();
    let mut cfg = Settings::default();
    publish(&mut reg, Vec::new(), cfg.clone());
    assert!(settings(&reg).expect("published").gesture_templates.is_empty());

    cfg.gesture_templates.push(("flick".into(), vec![(0.0, 0.0), (1.0, 1.0)]));
    cfg.gesture_tolerance = 0.42;
    publish(&mut reg, Vec::new(), cfg.clone());

    let s = settings(&reg).expect("published");
    assert_eq!(s.gesture_templates.len(), 1);
    assert_eq!(s.gesture_tolerance, 0.42);
}

#[test]
fn an_id_is_claimed_once() {
    let mut reg: Registry<()> = Registry::new();
    assert!(claim(&mut reg, "pad"));
    assert!(!claim(&mut reg, "pad"));
    assert!(claim(&mut reg, "kbd"));
}

#[test]
fn a_reload_hands_back_only_devices_nobody_watches() {
    let mut reg: Registry<u32> = Registry::new();
    assert!(claim(&mut reg, "pad"));
    let fresh = poll(&mut reg, Ok((vec![device("pad"), device("kbd"), device("kbd"), device("remote")], 7)));
    let ids: Vec<&str> = fresh.iter().map(|d| d.id.as_str()).collect();
    assert_eq!(ids, vec!["kbd", "remote"]);
    assert_eq!(generation(&reg), 1);
    assert_eq!(settings(&reg), Some(&7));
    assert_eq!(device_config(&reg, "remote").map(|d| d.id.as_str()), Some("remote"));
    assert!(device_config(&reg, "gone").is_none());
    // Nothing new the second time round.
    let again = poll(&mut reg, Ok((vec![device("kbd")], 8)));
    assert!(again.is_empty());
    assert_eq!(generation(&reg), 2);
    assert!(device_config(&reg, "remote").is_none());
    // A failed read keeps the running config.
    let failed = poll(&mut reg, Err("bad line".to_string()));
    assert!(failed.is_empty());
    assert_eq!(generation(&reg), 2);
    assert_eq!(settings(&reg), Some(&8));
}

#[test]
fn the_generation_counts_successful_reloads() {
    let mut reg: Registry<u32> = Registry::new();
    let g0 = generation(&reg);
    claim(&mut reg, "pad");
    publish(&mut reg, vec![device("pad")], 1);
    assert_eq!(generation(&reg), g0);
    poll(&mut reg, Ok((vec![device("pad")], 2)));
    poll(&mut reg, Err("unreadable".to_string()));
    poll(&mut reg, Ok((Vec::new(), 3)));
    assert_eq!(generation(&reg), g0 + 2);
    reg.generation = u64::MAX;
    poll(&mut reg, Ok((Vec::new(), 4)));
    assert_eq!(generation(&reg), 0);
}
