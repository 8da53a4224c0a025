//! The configuration file, `config.ini`, and what each of its lines sets.
//!
//! A line is blank, a comment (`#` or `;` first), a `[section]` header or a
//! `key = value` entry; whitespace around each part is ignored, and a value
//! in double quotes loses them. `[device]` or `[device.ID]` starts a device;
//! `[buttons]`, `[longpress]`, `[dpad]`, `[dpad_longpress]`, `[triggers]`
//! and `[triggers_longpress]` bind scripts on the device started last;
//! `[settings]` holds what every worker shares. Lines of any other shape,
//! keys nothing reads and values that do not parse are skipped.

use vstd::prelude::*;
use std::collections::HashMap;
use crate::config::{DeviceConfig, DpadDirection, PerDirection, PerTrigger, Trigger};
use crate::text::{
    chars_of, find, find_char, has_prefix, lines, lines_of, parse_u16, parse_u16_of, parse_u64,
    parse_u64_of, same, slice, starts_with, string_of, trim, trimmed, views,
};

verus! {

broadcast use vstd::std_specs::hash::group_hash_axioms;

/// What one line of the file is.
pub enum LineV {
    Blank,
    Section(Seq<char>),
    Entry(Seq<char>, Seq<char>),
}

/// A value without one pair of surrounding double quotes.
pub open spec fn unquote(v: Seq<char>) -> Seq<char> {
    if v.len() >= 2 && v[0] == '"' && v.last() == '"' {
        v.subrange(1, v.len() - 1)
    } else {
        v
    }
}

pub open spec fn read_line(line: Seq<char>) -> LineV {
    let t = trim(line);
    if t.len() == 0 || t[0] == '#' || t[0] == ';' {
        LineV::Blank
    } else if t[0] == '[' && t.last() == ']' {
        LineV::Section(trim(t.subrange(1, t.len() - 1)))
    } else {
        match find(t, '=') {
            Some(i) => LineV::Entry(trim(t.take(i)), unquote(trim(t.skip(i + 1)))),
            None => LineV::Blank,
        }
    }
}

/// One line of the file, read.
pub enum Line {
    Blank,
    Section(Vec<char>),
    Entry(Vec<char>, Vec<char>),
}

pub open spec fn line_view(l: Line) -> LineV {
    match l {
        Line::Blank => LineV::Blank,
        Line::Section(n) => LineV::Section(n@),
        Line::Entry(k, v) => LineV::Entry(k@, v@),
    }
}

fn unquoted(v: &Vec<char>) -> (r: Vec<char>)
    ensures
        r@ == unquote(v@),
{
    if v.len() >= 2 && v[0] == '"' && v[v.len() - 1] == '"' {
        slice(v, 1, v.len() - 1)
    } else {
        slice(v, 0, v.len())
    }
}

pub fn read_line_of(line: &Vec<char>) -> (r: Line)
    ensures
        line_view(r) == read_line(line@),
{
    let t = trimmed(line);
    if t.len() == 0 || t[0] == '#' || t[0] == ';' {
        Line::Blank
    } else if t[0] == '[' && t[t.len() - 1] == ']' {
        let inner = slice(&t, 1, t.len() - 1);
        Line::Section(trimmed(&inner))
    } else {
        match find_char(&t, '=') {
            Some(i) => {
                let key = slice(&t, 0, i);
                let value = slice(&t, i + 1, t.len());
                assert(key@ == t@.take(i as int));
                assert(value@ == t@.skip(i + 1));
                Line::Entry(trimmed(&key), unquoted(&trimmed(&value)))
            },
            None => Line::Blank,
        }
    }
}

/// Which section the lines being read belong to.
#[derive(Clone, Copy, PartialEq, Eq, Structural, Debug)]
pub enum Part {
    /// Before the first header.
    Top,
    Device,
    Settings,
    Buttons,
    LongPress,
    Dpad,
    DpadLongPress,
    Triggers,
    TriggersLongPress,
    /// A section nothing here reads.
    Other,
}

pub open spec fn part_of(name: Seq<char>) -> Part {
    if name == "device"@ || starts_with(name, "device."@) {
        Part::Device
    } else if name == "settings"@ {
        Part::Settings
    } else if name == "buttons"@ {
        Part::Buttons
    } else if name == "longpress"@ {
        Part::LongPress
    } else if name == "dpad"@ {
        Part::Dpad
    } else if name == "dpad_longpress"@ {
        Part::DpadLongPress
    } else if name == "triggers"@ {
        Part::Triggers
    } else if name == "triggers_longpress"@ {
        Part::TriggersLongPress
    } else {
        Part::Other
    }
}

/// The id of the device a `[device.ID]` header starts; a bare `[device]`
/// is the device `device`.
pub open spec fn device_id(name: Seq<char>) -> Seq<char> {
    if starts_with(name, "device."@) {
        name.skip("device."@.len() as int)
    } else {
        name
    }
}

fn is_text(v: &Vec<char>, lit: &str) -> (r: bool)
    ensures
        r == (v@ == lit@),
{
    same(v, &chars_of(lit))
}

pub fn part_of_name(name: &Vec<char>) -> (r: Part)
    ensures
        r == part_of(name@),
{
    if is_text(name, "device") || has_prefix(name, &chars_of("device.")) {
        Part::Device
    } else if is_text(name, "settings") {
        Part::Settings
    } else if is_text(name, "buttons") {
        Part::Buttons
    } else if is_text(name, "longpress") {
        Part::LongPress
    } else if is_text(name, "dpad") {
        Part::Dpad
    } else if is_text(name, "dpad_longpress") {
        Part::DpadLongPress
    } else if is_text(name, "triggers") {
        Part::Triggers
    } else if is_text(name, "triggers_longpress") {
        Part::TriggersLongPress
    } else {
        Part::Other
    }
}

fn device_id_of(name: &Vec<char>) -> (r: Vec<char>)
    ensures
        r@ == device_id(name@),
{
    let prefix = chars_of("device.");
    if has_prefix(name, &prefix) {
        slice(name, prefix.len(), name.len())
    } else {
        slice(name, 0, name.len())
    }
}

/// `true` or `false`; anything else is no boolean.
pub open spec fn parse_bool(v: Seq<char>) -> Option<bool> {
    if v == "true"@ {
        Some(true)
    } else if v == "false"@ {
        Some(false)
    } else {
        None
    }
}

fn parse_bool_of(v: &Vec<char>) -> (r: Option<bool>)
    ensures
        r == parse_bool(v@),
{
    if is_text(v, "true") {
        Some(true)
    } else if is_text(v, "false") {
        Some(false)
    } else {
        None
    }
}

pub open spec fn direction_named(k: Seq<char>) -> Option<DpadDirection> {
    if k == "up"@ {
        Some(DpadDirection::Up)
    } else if k == "down"@ {
        Some(DpadDirection::Down)
    } else if k == "left"@ {
        Some(DpadDirection::Left)
    } else if k == "right"@ {
        Some(DpadDirection::Right)
    } else {
        None
    }
}

fn direction_of(k: &Vec<char>) -> (r: Option<DpadDirection>)
    ensures
        r == direction_named(k@),
{
    if is_text(k, "up") {
        Some(DpadDirection::Up)
    } else if is_text(k, "down") {
        Some(DpadDirection::Down)
    } else if is_text(k, "left") {
        Some(DpadDirection::Left)
    } else if is_text(k, "right") {
        Some(DpadDirection::Right)
    } else {
        None
    }
}

pub open spec fn trigger_named(k: Seq<char>) -> Option<Trigger> {
    if k == "lt"@ {
        Some(Trigger::LT)
    } else if k == "rt"@ {
        Some(Trigger::RT)
    } else {
        None
    }
}

fn trigger_of(k: &Vec<char>) -> (r: Option<Trigger>)
    ensures
        r == trigger_named(k@),
{
    if is_text(k, "lt") {
        Some(Trigger::LT)
    } else if is_text(k, "rt") {
        Some(Trigger::RT)
    } else {
        None
    }
}

/// A device as the file describes it, its texts as character sequences.
pub struct DeviceModel {
    pub id: Seq<char>,
    pub name: Option<Seq<char>>,
    pub uniq: Option<Seq<char>>,
    pub grab: bool,
    pub grab_explicit: bool,
    pub mouse: bool,
    pub passthrough: bool,
    pub keyboard_layout: Option<Seq<char>>,
    pub mappings: Map<u16, Seq<char>>,
    pub long_press_mappings: Map<u16, Seq<char>>,
    pub dpad: PerDirection<Option<Seq<char>>>,
    pub dpad_longpress: PerDirection<Option<Seq<char>>>,
    pub triggers: PerTrigger<Option<Seq<char>>>,
    pub triggers_longpress: PerTrigger<Option<Seq<char>>>,
}

pub open spec fn opt_view(o: Option<String>) -> Option<Seq<char>> {
    match o {
        Some(s) => Some(s@),
        None => None,
    }
}

pub open spec fn scripts_view(m: Map<u16, String>) -> Map<u16, Seq<char>> {
    m.map_values(|s: String| s@)
}

pub open spec fn directions_view(p: PerDirection<Option<String>>) -> PerDirection<Option<Seq<char>>> {
    PerDirection { up: opt_view(p.up), down: opt_view(p.down), left: opt_view(p.left), right: opt_view(p.right) }
}

pub open spec fn triggers_view(p: PerTrigger<Option<String>>) -> PerTrigger<Option<Seq<char>>> {
    PerTrigger { lt: opt_view(p.lt), rt: opt_view(p.rt) }
}

pub open spec fn device_view(d: DeviceConfig) -> DeviceModel {
    DeviceModel {
        id: d.id@,
        name: opt_view(d.name),
        uniq: opt_view(d.uniq),
        grab: d.grab,
        grab_explicit: d.grab_explicit,
        mouse: d.mouse,
        passthrough: d.passthrough,
        keyboard_layout: opt_view(d.keyboard_layout),
        mappings: scripts_view(d.mappings@),
        long_press_mappings: scripts_view(d.long_press_mappings@),
        dpad: directions_view(d.dpad_mappings),
        dpad_longpress: directions_view(d.dpad_longpress_mappings),
        triggers: triggers_view(d.trigger_mappings),
        triggers_longpress: triggers_view(d.trigger_longpress_mappings),
    }
}

/// A device just started by its header: held exclusively unless the file
/// says otherwise (and the worker decides from the node until then),
/// nothing relayed, nothing bound.
pub open spec fn fresh_device(id: Seq<char>) -> DeviceModel {
    DeviceModel {
        id,
        name: None,
        uniq: None,
        grab: true,
        grab_explicit: false,
        mouse: false,
        passthrough: false,
        keyboard_layout: None,
        mappings: Map::empty(),
        long_press_mappings: Map::empty(),
        dpad: PerDirection { up: None, down: None, left: None, right: None },
        dpad_longpress: PerDirection { up: None, down: None, left: None, right: None },
        triggers: PerTrigger { lt: None, rt: None },
        triggers_longpress: PerTrigger { lt: None, rt: None },
    }
}

fn no_directions() -> (r: PerDirection<Option<String>>)
    ensures
        r == (PerDirection::<Option<String>> { up: None, down: None, left: None, right: None }),
{
    PerDirection { up: None, down: None, left: None, right: None }
}

fn new_device(id: Vec<char>) -> (r: DeviceConfig)
    ensures
        device_view(r) == fresh_device(id@),
{
    let r = DeviceConfig {
        id: string_of(&id),
        name: None,
        uniq: None,
        grab: true,
        grab_explicit: false,
        mouse: false,
        passthrough: false,
        keyboard_layout: None,
        mappings: HashMap::new(),
        long_press_mappings: HashMap::new(),
        dpad_mappings: no_directions(),
        dpad_longpress_mappings: no_directions(),
        trigger_mappings: PerTrigger { lt: None, rt: None },
        trigger_longpress_mappings: PerTrigger { lt: None, rt: None },
    };
    assert(scripts_view(r.mappings@) =~= Map::empty());
    assert(scripts_view(r.long_press_mappings@) =~= Map::empty());
    r
}

/// What an entry of a `[device]` section does to the device.
pub open spec fn device_entry(d: DeviceModel, k: Seq<char>, v: Seq<char>) -> DeviceModel {
    if k == "name"@ {
        DeviceModel { name: Some(v), ..d }
    } else if k == "uniq"@ {
        DeviceModel { uniq: Some(v), ..d }
    } else if k == "keyboard_layout"@ {
        DeviceModel { keyboard_layout: Some(v), ..d }
    } else if k == "grab"@ {
        match parse_bool(v) {
            Some(b) => DeviceModel { grab: b, grab_explicit: true, ..d },
            None => d,
        }
    } else if k == "mouse"@ {
        match parse_bool(v) {
            Some(b) => DeviceModel { mouse: b, ..d },
            None => d,
        }
    } else if k == "passthrough"@ {
        match parse_bool(v) {
            Some(b) => DeviceModel { passthrough: b, ..d },
            None => d,
        }
    } else {
        d
    }
}

/// What an entry of a binding section does to the device it binds on.
pub open spec fn binding_entry(part: Part, d: DeviceModel, k: Seq<char>, v: Seq<char>) -> DeviceModel {
    match part {
        Part::Buttons => match parse_u16(k) {
            Some(c) => DeviceModel { mappings: d.mappings.insert(c, v), ..d },
            None => d,
        },
        Part::LongPress => match parse_u16(k) {
            Some(c) => DeviceModel { long_press_mappings: d.long_press_mappings.insert(c, v), ..d },
            None => d,
        },
        Part::Dpad => match direction_named(k) {
            Some(dir) => DeviceModel { dpad: d.dpad.put(dir, Some(v)), ..d },
            None => d,
        },
        Part::DpadLongPress => match direction_named(k) {
            Some(dir) => DeviceModel { dpad_longpress: d.dpad_longpress.put(dir, Some(v)), ..d },
            None => d,
        },
        Part::Triggers => match trigger_named(k) {
            Some(t) => DeviceModel { triggers: d.triggers.put(t, Some(v)), ..d },
            None => d,
        },
        Part::TriggersLongPress => match trigger_named(k) {
            Some(t) => DeviceModel { triggers_longpress: d.triggers_longpress.put(t, Some(v)), ..d },
            None => d,
        },
        Part::Device => device_entry(d, k, v),
        _ => d,
    }
}

fn set_device_entry(d: &mut DeviceConfig, k: &Vec<char>, v: &Vec<char>)
    ensures
        device_view(*final(d)) == device_entry(device_view(*old(d)), k@, v@),
{
    if is_text(k, "name") {
        d.name = Some(string_of(v));
    } else if is_text(k, "uniq") {
        d.uniq = Some(string_of(v));
    } else if is_text(k, "keyboard_layout") {
        d.keyboard_layout = Some(string_of(v));
    } else if is_text(k, "grab") {
        if let Some(b) = parse_bool_of(v) {
            d.grab = b;
            d.grab_explicit = true;
        }
    } else if is_text(k, "mouse") {
        if let Some(b) = parse_bool_of(v) {
            d.mouse = b;
        }
    } else if is_text(k, "passthrough") {
        if let Some(b) = parse_bool_of(v) {
            d.passthrough = b;
        }
    }
}

fn bind_code(m: &mut HashMap<u16, String>, k: &Vec<char>, v: &Vec<char>)
    ensures
        scripts_view(final(m)@) == match parse_u16(k@) {
            Some(c) => scripts_view(old(m)@).insert(c, v@),
            None => scripts_view(old(m)@),
        },
{
    if let Some(c) = parse_u16_of(k) {
        m.insert(c, string_of(v));
        assert(scripts_view(m@) =~= scripts_view(old(m)@).insert(c, v@));
    }
}

fn bind_direction(p: &mut PerDirection<Option<String>>, k: &Vec<char>, v: &Vec<char>)
    ensures
        directions_view(*final(p)) == match direction_named(k@) {
            Some(dir) => directions_view(*old(p)).put(dir, Some(v@)),
            None => directions_view(*old(p)),
        },
{
    if let Some(dir) = direction_of(k) {
        p.set(dir, Some(string_of(v)));
    }
}

fn bind_trigger(p: &mut PerTrigger<Option<String>>, k: &Vec<char>, v: &Vec<char>)
    ensures
        triggers_view(*final(p)) == match trigger_named(k@) {
            Some(t) => triggers_view(*old(p)).put(t, Some(v@)),
            None => triggers_view(*old(p)),
        },
{
    if let Some(t) = trigger_of(k) {
        p.set(t, Some(string_of(v)));
    }
}

fn set_binding(part: Part, d: &mut DeviceConfig, k: &Vec<char>, v: &Vec<char>)
    ensures
        device_view(*final(d)) == binding_entry(part, device_view(*old(d)), k@, v@),
{
    match part {
        Part::Buttons => bind_code(&mut d.mappings, k, v),
        Part::LongPress => bind_code(&mut d.long_press_mappings, k, v),
        Part::Dpad => bind_direction(&mut d.dpad_mappings, k, v),
        Part::DpadLongPress => bind_direction(&mut d.dpad_longpress_mappings, k, v),
        Part::Triggers => bind_trigger(&mut d.trigger_mappings, k, v),
        Part::TriggersLongPress => bind_trigger(&mut d.trigger_longpress_mappings, k, v),
        Part::Device => set_device_entry(d, k, v),
        _ => {},
    }
}

/// What every worker shares.
#[derive(Clone, Debug)]
pub struct Settings {
    /// A press this soon after the last one on the same button is a bounce.
    pub debounce_ms: u64,
    /// Holding a button this long is a long press.
    pub long_press_ms: u64,
    /// How often a held binding repeats.
    pub repeat_ms: u64,
    /// Log every button, to discover codes.
    pub log_buttons: bool,
    /// Re-arm the screensaver timer on input.
    pub keep_awake: bool,
    pub on_connect: Option<String>,
    pub on_disconnect: Option<String>,
}

pub struct SettingsModel {
    pub debounce_ms: u64,
    pub long_press_ms: u64,
    pub repeat_ms: u64,
    pub log_buttons: bool,
    pub keep_awake: bool,
    pub on_connect: Option<Seq<char>>,
    pub on_disconnect: Option<Seq<char>>,
}

pub open spec fn settings_view(s: Settings) -> SettingsModel {
    SettingsModel {
        debounce_ms: s.debounce_ms,
        long_press_ms: s.long_press_ms,
        repeat_ms: s.repeat_ms,
        log_buttons: s.log_buttons,
        keep_awake: s.keep_awake,
        on_connect: opt_view(s.on_connect),
        on_disconnect: opt_view(s.on_disconnect),
    }
}

/// The settings of a file that says nothing: 200 ms debounce, 500 ms long
/// press, 100 ms repeat, no button log, screen kept awake, no scripts.
pub open spec fn default_settings() -> SettingsModel {
    SettingsModel {
        debounce_ms: 200,
        long_press_ms: 500,
        repeat_ms: 100,
        log_buttons: false,
        keep_awake: true,
        on_connect: None,
        on_disconnect: None,
    }
}

impl Default for Settings {
    fn default() -> (r: Self)
        ensures
            settings_view(r) == default_settings(),
    {
        Settings {
            debounce_ms: 200,
            long_press_ms: 500,
            repeat_ms: 100,
            log_buttons: false,
            keep_awake: true,
            on_connect: None,
            on_disconnect: None,
        }
    }
}

/// What an entry of the `[settings]` section does.
pub open spec fn settings_entry(s: SettingsModel, k: Seq<char>, v: Seq<char>) -> SettingsModel {
    if k == "debounce_ms"@ {
        match parse_u64(v) {
            Some(n) => SettingsModel { debounce_ms: n, ..s },
            None => s,
        }
    } else if k == "long_press_ms"@ {
        match parse_u64(v) {
            Some(n) => SettingsModel { long_press_ms: n, ..s },
            None => s,
        }
    } else if k == "repeat_ms"@ {
        match parse_u64(v) {
            Some(n) => SettingsModel { repeat_ms: n, ..s },
            None => s,
        }
    } else if k == "log_buttons"@ {
        match parse_bool(v) {
            Some(b) => SettingsModel { log_buttons: b, ..s },
            None => s,
        }
    } else if k == "keep_awake"@ {
        match parse_bool(v) {
            Some(b) => SettingsModel { keep_awake: b, ..s },
            None => s,
        }
    } else if k == "on_connect"@ {
        SettingsModel { on_connect: Some(v), ..s }
    } else if k == "on_disconnect"@ {
        SettingsModel { on_disconnect: Some(v), ..s }
    } else {
        s
    }
}

fn set_settings_entry(s: &mut Settings, k: &Vec<char>, v: &Vec<char>)
    ensures
        settings_view(*final(s)) == settings_entry(settings_view(*old(s)), k@, v@),
{
    if is_text(k, "debounce_ms") {
        if let Some(n) = parse_u64_of(v) {
            s.debounce_ms = n;
        }
    } else if is_text(k, "long_press_ms") {
        if let Some(n) = parse_u64_of(v) {
            s.long_press_ms = n;
        }
    } else if is_text(k, "repeat_ms") {
        if let Some(n) = parse_u64_of(v) {
            s.repeat_ms = n;
        }
    } else if is_text(k, "log_buttons") {
        if let Some(b) = parse_bool_of(v) {
            s.log_buttons = b;
        }
    } else if is_text(k, "keep_awake") {
        if let Some(b) = parse_bool_of(v) {
            s.keep_awake = b;
        }
    } else if is_text(k, "on_connect") {
        s.on_connect = Some(string_of(v));
    } else if is_text(k, "on_disconnect") {
        s.on_disconnect = Some(string_of(v));
    }
}

/// What the lines read so far have configured, and which section the next
/// entry belongs to.
pub struct ConfigModel {
    pub part: Part,
    pub devices: Seq<DeviceModel>,
    pub settings: SettingsModel,
}

pub open spec fn start_model() -> ConfigModel {
    ConfigModel { part: Part::Top, devices: Seq::empty(), settings: default_settings() }
}

/// A header switches section, and a device header starts a device; an
/// entry sets a setting, or binds on the device started last.
pub open spec fn apply_line(m: ConfigModel, l: LineV) -> ConfigModel {
    match l {
        LineV::Blank => m,
        LineV::Section(n) => if part_of(n) == Part::Device {
            ConfigModel { part: Part::Device, devices: m.devices.push(fresh_device(device_id(n))), ..m }
        } else {
            ConfigModel { part: part_of(n), ..m }
        },
        LineV::Entry(k, v) => if m.part == Part::Settings {
            ConfigModel { settings: settings_entry(m.settings, k, v), ..m }
        } else if m.devices.len() > 0 {
            ConfigModel {
                devices: m.devices.update(
                    m.devices.len() - 1,
                    binding_entry(m.part, m.devices.last(), k, v),
                ),
                ..m
            }
        } else {
            m
        },
    }
}

pub open spec fn read_lines(ls: Seq<Seq<char>>) -> ConfigModel
    decreases ls.len(),
{
    if ls.len() == 0 {
        start_model()
    } else {
        apply_line(read_lines(ls.drop_last()), read_line(ls.last()))
    }
}

/// What a configuration file's text configures.
pub open spec fn read_config(text: Seq<char>) -> ConfigModel {
    read_lines(lines_of(text))
}

/// The devices to serve and the settings they share.
pub struct Config {
    pub devices: Vec<DeviceConfig>,
    pub settings: Settings,
}

pub open spec fn devices_view(ds: Seq<DeviceConfig>) -> Seq<DeviceModel> {
    ds.map_values(|d: DeviceConfig| device_view(d))
}

impl Config {
    /// Reads the text of a configuration file.
    pub fn parse(text: &str) -> (r: Config)
        ensures
            devices_view(r.devices@) == read_config(text@).devices,
            settings_view(r.settings) == read_config(text@).settings,
    {
        let ls = lines(&chars_of(text));
        let ghost all = views(ls@);
        let mut devices: Vec<DeviceConfig> = Vec::new();
        let mut settings = Settings::default();
        let mut part = Part::Top;
        let mut i: usize = 0;
        assert(devices_view(devices@) =~= Seq::<DeviceModel>::empty());
        while i < ls.len()
            invariant
                i <= ls.len(),
                all == views(ls@),
                all.len() == ls@.len(),
                devices_view(devices@) == read_lines(all.take(i as int)).devices,
                settings_view(settings) == read_lines(all.take(i as int)).settings,
                part == read_lines(all.take(i as int)).part,
            decreases ls.len() - i,
        {
            let ghost m = read_lines(all.take(i as int));
            let ghost before = devices@;
            proof {
                assert(all.take(i + 1).drop_last() =~= all.take(i as int));
                assert(all.take(i + 1).last() == ls@[i as int]@);
            }
            let line = read_line_of(&ls[i]);
            match line {
                Line::Blank => {},
                Line::Section(n) => {
                    part = part_of_name(&n);
                    if part == Part::Device {
                        devices.push(new_device(device_id_of(&n)));
                        assert(devices_view(devices@) =~= devices_view(before).push(fresh_device(device_id(n@))));
                    }
                },
                Line::Entry(k, v) => {
                    if part == Part::Settings {
                        set_settings_entry(&mut settings, &k, &v);
                    } else if devices.len() > 0 {
                        let mut d = devices.pop().unwrap();
                        set_binding(part, &mut d, &k, &v);
                        devices.push(d);
                        assert(devices_view(devices@) =~= m.devices.update(
                            m.devices.len() - 1,
                            binding_entry(part, m.devices.last(), k@, v@),
                        ));
                    }
                },
            }
            i = i + 1;
        }
        assert(all.take(ls.len() as int) =~= all);
        Config { devices, settings }
    }
}

/// Each `[settings]` key sets its own value and no other: a number (or
/// `true`/`false`) that parses replaces the value, one that does not leaves
/// it, and every other setting stays as it was.
pub proof fn law_a_setting_sets_only_its_own_value(s: SettingsModel, v: Seq<char>)
    ensures
        ({
            let r = settings_entry(s, "debounce_ms"@, v);
            r.debounce_ms == (match parse_u64(v) { Some(n) => n, None => s.debounce_ms }) && r.long_press_ms == s.long_press_ms && r.repeat_ms == s.repeat_ms && r.log_buttons == s.log_buttons && r.keep_awake == s.keep_awake && r.on_connect == s.on_connect && r.on_disconnect == s.on_disconnect
        }),
        ({
            let r = settings_entry(s, "long_press_ms"@, v);
            r.long_press_ms == (match parse_u64(v) { Some(n) => n, None => s.long_press_ms }) && r.debounce_ms == s.debounce_ms && r.repeat_ms == s.repeat_ms && r.log_buttons == s.log_buttons && r.keep_awake == s.keep_awake && r.on_connect == s.on_connect && r.on_disconnect == s.on_disconnect
        }),
        ({
            let r = settings_entry(s, "repeat_ms"@, v);
            r.repeat_ms == (match parse_u64(v) { Some(n) => n, None => s.repeat_ms }) && r.debounce_ms == s.debounce_ms && r.long_press_ms == s.long_press_ms && r.log_buttons == s.log_buttons && r.keep_awake == s.keep_awake && r.on_connect == s.on_connect && r.on_disconnect == s.on_disconnect
        }),
        ({
            let r = settings_entry(s, "log_buttons"@, v);
            r.log_buttons == (match parse_bool(v) { Some(b) => b, None => s.log_buttons }) && r.debounce_ms == s.debounce_ms && r.long_press_ms == s.long_press_ms && r.repeat_ms == s.repeat_ms && r.keep_awake == s.keep_awake && r.on_connect == s.on_connect && r.on_disconnect == s.on_disconnect
        }),
        ({
            let r = settings_entry(s, "keep_awake"@, v);
            r.keep_awake == (match parse_bool(v) { Some(b) => b, None => s.keep_awake }) && r.debounce_ms == s.debounce_ms && r.long_press_ms == s.long_press_ms && r.repeat_ms == s.repeat_ms && r.log_buttons == s.log_buttons && r.on_connect == s.on_connect && r.on_disconnect == s.on_disconnect
        }),
        ({
            let r = settings_entry(s, "on_connect"@, v);
            r.on_connect == Some(v) && r.debounce_ms == s.debounce_ms && r.long_press_ms == s.long_press_ms && r.repeat_ms == s.repeat_ms && r.log_buttons == s.log_buttons && r.keep_awake == s.keep_awake && r.on_disconnect == s.on_disconnect
        }),
        ({
            let r = settings_entry(s, "on_disconnect"@, v);
            r.on_disconnect == Some(v) && r.debounce_ms == s.debounce_ms && r.long_press_ms == s.long_press_ms && r.repeat_ms == s.repeat_ms && r.log_buttons == s.log_buttons && r.keep_awake == s.keep_awake && r.on_connect == s.on_connect
        }),
{
    reveal_strlit("debounce_ms");
    reveal_strlit("long_press_ms");
    reveal_strlit("repeat_ms");
    reveal_strlit("log_buttons");
    reveal_strlit("keep_awake");
    reveal_strlit("on_connect");
    reveal_strlit("on_disconnect");
    assert("debounce_ms"@ != "long_press_ms"@) by { assert("debounce_ms"@.len() != "long_press_ms"@.len()); }
    assert("debounce_ms"@ != "repeat_ms"@) by { assert("debounce_ms"@.len() != "repeat_ms"@.len()); }
    assert("debounce_ms"@ != "log_buttons"@) by { assert("debounce_ms"@[0] != "log_buttons"@[0]); }
    assert("debounce_ms"@ != "keep_awake"@) by { assert("debounce_ms"@.len() != "keep_awake"@.len()); }
    assert("debounce_ms"@ != "on_connect"@) by { assert("debounce_ms"@.len() != "on_connect"@.len()); }
    assert("debounce_ms"@ != "on_disconnect"@) by { assert("debounce_ms"@.len() != "on_disconnect"@.len()); }
    assert("long_press_ms"@ != "repeat_ms"@) by { assert("long_press_ms"@.len() != "repeat_ms"@.len()); }
    assert("long_press_ms"@ != "log_buttons"@) by { assert("long_press_ms"@.len() != "log_buttons"@.len()); }
    assert("long_press_ms"@ != "keep_awake"@) by { assert("long_press_ms"@.len() != "keep_awake"@.len()); }
    assert("long_press_ms"@ != "on_connect"@) by { assert("long_press_ms"@.len() != "on_connect"@.len()); }
    assert("long_press_ms"@ != "on_disconnect"@) by { assert("long_press_ms"@[0] != "on_disconnect"@[0]); }
    assert("repeat_ms"@ != "log_buttons"@) by { assert("repeat_ms"@.len() != "log_buttons"@.len()); }
    assert("repeat_ms"@ != "keep_awake"@) by { assert("repeat_ms"@.len() != "keep_awake"@.len()); }
    assert("repeat_ms"@ != "on_connect"@) by { assert("repeat_ms"@.len() != "on_connect"@.len()); }
    assert("repeat_ms"@ != "on_disconnect"@) by { assert("repeat_ms"@.len() != "on_disconnect"@.len()); }
    assert("log_buttons"@ != "keep_awake"@) by { assert("log_buttons"@.len() != "keep_awake"@.len()); }
    assert("log_buttons"@ != "on_connect"@) by { assert("log_buttons"@.len() != "on_connect"@.len()); }
    assert("log_buttons"@ != "on_disconnect"@) by { assert("log_buttons"@.len() != "on_disconnect"@.len()); }
    assert("keep_awake"@ != "on_connect"@) by { assert("keep_awake"@[0] != "on_connect"@[0]); }
    assert("keep_awake"@ != "on_disconnect"@) by { assert("keep_awake"@.len() != "on_disconnect"@.len()); }
    assert("on_connect"@ != "on_disconnect"@) by { assert("on_connect"@.len() != "on_disconnect"@.len()); }
}

/// Each key of a `[device]` section sets its own property and no other:
/// `name`, `uniq` and `keyboard_layout` take the value as written; `grab`,
/// `mouse` and `passthrough` take a `true`/`false` (a `grab` so written is
/// explicit).
pub proof fn law_a_device_key_sets_only_its_own_property(d: DeviceModel, v: Seq<char>)
    ensures
        ({
            let r = device_entry(d, "name"@, v);
            (r.name == Some(v) && r.id == d.id && r.uniq == d.uniq && r.grab == d.grab && r.grab_explicit == d.grab_explicit && r.mouse == d.mouse && r.passthrough == d.passthrough && r.keyboard_layout == d.keyboard_layout && r.mappings == d.mappings && r.long_press_mappings == d.long_press_mappings && r.dpad == d.dpad && r.dpad_longpress == d.dpad_longpress && r.triggers == d.triggers && r.triggers_longpress == d.triggers_longpress)
        }),
        ({
            let r = device_entry(d, "uniq"@, v);
            (r.uniq == Some(v) && r.id == d.id && r.name == d.name && r.grab == d.grab && r.grab_explicit == d.grab_explicit && r.mouse == d.mouse && r.passthrough == d.passthrough && r.keyboard_layout == d.keyboard_layout && r.mappings == d.mappings && r.long_press_mappings == d.long_press_mappings && r.dpad == d.dpad && r.dpad_longpress == d.dpad_longpress && r.triggers == d.triggers && r.triggers_longpress == d.triggers_longpress)
        }),
        ({
            let r = device_entry(d, "keyboard_layout"@, v);
            (r.keyboard_layout == Some(v) && r.id == d.id && r.name == d.name && r.uniq == d.uniq && r.grab == d.grab && r.grab_explicit == d.grab_explicit && r.mouse == d.mouse && r.passthrough == d.passthrough && r.mappings == d.mappings && r.long_press_mappings == d.long_press_mappings && r.dpad == d.dpad && r.dpad_longpress == d.dpad_longpress && r.triggers == d.triggers && r.triggers_longpress == d.triggers_longpress)
        }),
        ({
            let r = device_entry(d, "grab"@, v);
            parse_bool(v) matches Some(b) ==> (r.grab == b && r.grab_explicit == true && r.id == d.id && r.name == d.name && r.uniq == d.uniq && r.mouse == d.mouse && r.passthrough == d.passthrough && r.keyboard_layout == d.keyboard_layout && r.mappings == d.mappings && r.long_press_mappings == d.long_press_mappings && r.dpad == d.dpad && r.dpad_longpress == d.dpad_longpress && r.triggers == d.triggers && r.triggers_longpress == d.triggers_longpress)
        }),
        ({
            let r = device_entry(d, "mouse"@, v);
            parse_bool(v) matches Some(b) ==> (r.mouse == b && r.id == d.id && r.name == d.name && r.uniq == d.uniq && r.grab == d.grab && r.grab_explicit == d.grab_explicit && r.passthrough == d.passthrough && r.keyboard_layout == d.keyboard_layout && r.mappings == d.mappings && r.long_press_mappings == d.long_press_mappings && r.dpad == d.dpad && r.dpad_longpress == d.dpad_longpress && r.triggers == d.triggers && r.triggers_longpress == d.triggers_longpress)
        }),
        ({
            let r = device_entry(d, "passthrough"@, v);
            parse_bool(v) matches Some(b) ==> (r.passthrough == b && r.id == d.id && r.name == d.name && r.uniq == d.uniq && r.grab == d.grab && r.grab_explicit == d.grab_explicit && r.mouse == d.mouse && r.keyboard_layout == d.keyboard_layout && r.mappings == d.mappings && r.long_press_mappings == d.long_press_mappings && r.dpad == d.dpad && r.dpad_longpress == d.dpad_longpress && r.triggers == d.triggers && r.triggers_longpress == d.triggers_longpress)
        }),
{
    reveal_strlit("name");
    reveal_strlit("uniq");
    reveal_strlit("keyboard_layout");
    reveal_strlit("grab");
    reveal_strlit("mouse");
    reveal_strlit("passthrough");
    assert("name"@ != "uniq"@) by { assert("name"@[0] != "uniq"@[0]); }
    assert("name"@ != "keyboard_layout"@) by { assert("name"@.len() != "keyboard_layout"@.len()); }
    assert("name"@ != "grab"@) by { assert("name"@[0] != "grab"@[0]); }
    assert("name"@ != "mouse"@) by { assert("name"@.len() != "mouse"@.len()); }
    assert("name"@ != "passthrough"@) by { assert("name"@.len() != "passthrough"@.len()); }
    assert("uniq"@ != "keyboard_layout"@) by { assert("uniq"@.len() != "keyboard_layout"@.len()); }
    assert("uniq"@ != "grab"@) by { assert("uniq"@[0] != "grab"@[0]); }
    assert("uniq"@ != "mouse"@) by { assert("uniq"@.len() != "mouse"@.len()); }
    assert("uniq"@ != "passthrough"@) by { assert("uniq"@.len() != "passthrough"@.len()); }
    assert("keyboard_layout"@ != "grab"@) by { assert("keyboard_layout"@.len() != "grab"@.len()); }
    assert("keyboard_layout"@ != "mouse"@) by { assert("keyboard_layout"@.len() != "mouse"@.len()); }
    assert("keyboard_layout"@ != "passthrough"@) by { assert("keyboard_layout"@.len() != "passthrough"@.len()); }
    assert("grab"@ != "mouse"@) by { assert("grab"@.len() != "mouse"@.len()); }
    assert("grab"@ != "passthrough"@) by { assert("grab"@.len() != "passthrough"@.len()); }
    assert("mouse"@ != "passthrough"@) by { assert("mouse"@.len() != "passthrough"@.len()); }
}

/// Each binding section binds on its own table and nowhere else: a
/// `[buttons]` or `[longpress]` entry binds its button code in the normal or
/// the long-press table, a `[dpad]` or `[dpad_longpress]` entry binds the
/// direction it names (`up`, `down`, `left`, `right`), and a `[triggers]` or
/// `[triggers_longpress]` entry the trigger it names (`lt`, `rt`); every
/// other binding and property stays as it was.
pub proof fn law_a_binding_binds_only_what_it_names(d: DeviceModel, k: Seq<char>, v: Seq<char>)
    ensures
        ({
            let r = binding_entry(Part::Buttons, d, k, v);
            parse_u16(k) matches Some(c) ==> (r.mappings == d.mappings.insert(c, v) && r.id == d.id && r.name == d.name && r.uniq == d.uniq && r.grab == d.grab && r.grab_explicit == d.grab_explicit && r.mouse == d.mouse && r.passthrough == d.passthrough && r.keyboard_layout == d.keyboard_layout && r.long_press_mappings == d.long_press_mappings && r.dpad == d.dpad && r.dpad_longpress == d.dpad_longpress && r.triggers == d.triggers && r.triggers_longpress == d.triggers_longpress)
        }),
        ({
            let r = binding_entry(Part::LongPress, d, k, v);
            parse_u16(k) matches Some(c) ==> (r.long_press_mappings == d.long_press_mappings.insert(c, v) && r.id == d.id && r.name == d.name && r.uniq == d.uniq && r.grab == d.grab && r.grab_explicit == d.grab_explicit && r.mouse == d.mouse && r.passthrough == d.passthrough && r.keyboard_layout == d.keyboard_layout && r.mappings == d.mappings && r.dpad == d.dpad && r.dpad_longpress == d.dpad_longpress && r.triggers == d.triggers && r.triggers_longpress == d.triggers_longpress)
        }),
        ({
            let r = binding_entry(Part::Dpad, d, "up"@, v);
            r.dpad.up == Some(v) && r.dpad.down == d.dpad.down && r.dpad.left == d.dpad.left && r.dpad.right == d.dpad.right && r.id == d.id && r.name == d.name && r.uniq == d.uniq && r.grab == d.grab && r.grab_explicit == d.grab_explicit && r.mouse == d.mouse && r.passthrough == d.passthrough && r.keyboard_layout == d.keyboard_layout && r.mappings == d.mappings && r.long_press_mappings == d.long_press_mappings && r.dpad_longpress == d.dpad_longpress && r.triggers == d.triggers && r.triggers_longpress == d.triggers_longpress
        }),
        ({
            let r = binding_entry(Part::Dpad, d, "down"@, v);
            r.dpad.down == Some(v) && r.dpad.up == d.dpad.up && r.dpad.left == d.dpad.left && r.dpad.right == d.dpad.right && r.id == d.id && r.name == d.name && r.uniq == d.uniq && r.grab == d.grab && r.grab_explicit == d.grab_explicit && r.mouse == d.mouse && r.passthrough == d.passthrough && r.keyboard_layout == d.keyboard_layout && r.mappings == d.mappings && r.long_press_mappings == d.long_press_mappings && r.dpad_longpress == d.dpad_longpress && r.triggers == d.triggers && r.triggers_longpress == d.triggers_longpress
        }),
        ({
            let r = binding_entry(Part::Dpad, d, "left"@, v);
            r.dpad.left == Some(v) && r.dpad.up == d.dpad.up && r.dpad.down == d.dpad.down && r.dpad.right == d.dpad.right && r.id == d.id && r.name == d.name && r.uniq == d.uniq && r.grab == d.grab && r.grab_explicit == d.grab_explicit && r.mouse == d.mouse && r.passthrough == d.passthrough && r.keyboard_layout == d.keyboard_layout && r.mappings == d.mappings && r.long_press_mappings == d.long_press_mappings && r.dpad_longpress == d.dpad_longpress && r.triggers == d.triggers && r.triggers_longpress == d.triggers_longpress
        }),
        ({
            let r = binding_entry(Part::Dpad, d, "right"@, v);
            r.dpad.right == Some(v) && r.dpad.up == d.dpad.up && r.dpad.down == d.dpad.down && r.dpad.left == d.dpad.left && r.id == d.id && r.name == d.name && r.uniq == d.uniq && r.grab == d.grab && r.grab_explicit == d.grab_explicit && r.mouse == d.mouse && r.passthrough == d.passthrough && r.keyboard_layout == d.keyboard_layout && r.mappings == d.mappings && r.long_press_mappings == d.long_press_mappings && r.dpad_longpress == d.dpad_longpress && r.triggers == d.triggers && r.triggers_longpress == d.triggers_longpress
        }),
        ({
            let r = binding_entry(Part::DpadLongPress, d, "up"@, v);
            r.dpad_longpress.up == Some(v) && r.dpad_longpress.down == d.dpad_longpress.down && r.dpad_longpress.left == d.dpad_longpress.left && r.dpad_longpress.right == d.dpad_longpress.right && r.id == d.id && r.name == d.name && r.uniq == d.uniq && r.grab == d.grab && r.grab_explicit == d.grab_explicit && r.mouse == d.mouse && r.passthrough == d.passthrough && r.keyboard_layout == d.keyboard_layout && r.mappings == d.mappings && r.long_press_mappings == d.long_press_mappings && r.dpad == d.dpad && r.triggers == d.triggers && r.triggers_longpress == d.triggers_longpress
        }),
        ({
            let r = binding_entry(Part::DpadLongPress, d, "down"@, v);
            r.dpad_longpress.down == Some(v) && r.dpad_longpress.up == d.dpad_longpress.up && r.dpad_longpress.left == d.dpad_longpress.left && r.dpad_longpress.right == d.dpad_longpress.right && r.id == d.id && r.name == d.name && r.uniq == d.uniq && r.grab == d.grab && r.grab_explicit == d.grab_explicit && r.mouse == d.mouse && r.passthrough == d.passthrough && r.keyboard_layout == d.keyboard_layout && r.mappings == d.mappings && r.long_press_mappings == d.long_press_mappings && r.dpad == d.dpad && r.triggers == d.triggers && r.triggers_longpress == d.triggers_longpress
        }),
        ({
            let r = binding_entry(Part::DpadLongPress, d, "left"@, v);
            r.dpad_longpress.left == Some(v) && r.dpad_longpress.up == d.dpad_longpress.up && r.dpad_longpress.down == d.dpad_longpress.down && r.dpad_longpress.right == d.dpad_longpress.right && r.id == d.id && r.name == d.name && r.uniq == d.uniq && r.grab == d.grab && r.grab_explicit == d.grab_explicit && r.mouse == d.mouse && r.passthrough == d.passthrough && r.keyboard_layout == d.keyboard_layout && r.mappings == d.mappings && r.long_press_mappings == d.long_press_mappings && r.dpad == d.dpad && r.triggers == d.triggers && r.triggers_longpress == d.triggers_longpress
        }),
        ({
            let r = binding_entry(Part::DpadLongPress, d, "right"@, v);
            r.dpad_longpress.right == Some(v) && r.dpad_longpress.up == d.dpad_longpress.up && r.dpad_longpress.down == d.dpad_longpress.down && r.dpad_longpress.left == d.dpad_longpress.left && r.id == d.id && r.name == d.name && r.uniq == d.uniq && r.grab == d.grab && r.grab_explicit == d.grab_explicit && r.mouse == d.mouse && r.passthrough == d.passthrough && r.keyboard_layout == d.keyboard_layout && r.mappings == d.mappings && r.long_press_mappings == d.long_press_mappings && r.dpad == d.dpad && r.triggers == d.triggers && r.triggers_longpress == d.triggers_longpress
        }),
        ({
            let r = binding_entry(Part::Triggers, d, "lt"@, v);
            r.triggers.lt == Some(v) && r.triggers.rt == d.triggers.rt && r.id == d.id && r.name == d.name && r.uniq == d.uniq && r.grab == d.grab && r.grab_explicit == d.grab_explicit && r.mouse == d.mouse && r.passthrough == d.passthrough && r.keyboard_layout == d.keyboard_layout && r.mappings == d.mappings && r.long_press_mappings == d.long_press_mappings && r.dpad == d.dpad && r.dpad_longpress == d.dpad_longpress && r.triggers_longpress == d.triggers_longpress
        }),
        ({
            let r = binding_entry(Part::Triggers, d, "rt"@, v);
            r.triggers.rt == Some(v) && r.triggers.lt == d.triggers.lt && r.id == d.id && r.name == d.name && r.uniq == d.uniq && r.grab == d.grab && r.grab_explicit == d.grab_explicit && r.mouse == d.mouse && r.passthrough == d.passthrough && r.keyboard_layout == d.keyboard_layout && r.mappings == d.mappings && r.long_press_mappings == d.long_press_mappings && r.dpad == d.dpad && r.dpad_longpress == d.dpad_longpress && r.triggers_longpress == d.triggers_longpress
        }),
        ({
            let r = binding_entry(Part::TriggersLongPress, d, "lt"@, v);
            r.triggers_longpress.lt == Some(v) && r.triggers_longpress.rt == d.triggers_longpress.rt && r.id == d.id && r.name == d.name && r.uniq == d.uniq && r.grab == d.grab && r.grab_explicit == d.grab_explicit && r.mouse == d.mouse && r.passthrough == d.passthrough && r.keyboard_layout == d.keyboard_layout && r.mappings == d.mappings && r.long_press_mappings == d.long_press_mappings && r.dpad == d.dpad && r.dpad_longpress == d.dpad_longpress && r.triggers == d.triggers
        }),
        ({
            let r = binding_entry(Part::TriggersLongPress, d, "rt"@, v);
            r.triggers_longpress.rt == Some(v) && r.triggers_longpress.lt == d.triggers_longpress.lt && r.id == d.id && r.name == d.name && r.uniq == d.uniq && r.grab == d.grab && r.grab_explicit == d.grab_explicit && r.mouse == d.mouse && r.passthrough == d.passthrough && r.keyboard_layout == d.keyboard_layout && r.mappings == d.mappings && r.long_press_mappings == d.long_press_mappings && r.dpad == d.dpad && r.dpad_longpress == d.dpad_longpress && r.triggers == d.triggers
        }),
{
    reveal_strlit("up");
    reveal_strlit("down");
    reveal_strlit("left");
    reveal_strlit("right");
    reveal_strlit("lt");
    reveal_strlit("rt");
    assert("up"@ != "down"@) by { assert("up"@.len() != "down"@.len()); }
    assert("up"@ != "left"@) by { assert("up"@.len() != "left"@.len()); }
    assert("up"@ != "right"@) by { assert("up"@.len() != "right"@.len()); }
    assert("down"@ != "left"@) by { assert("down"@[0] != "left"@[0]); }
    assert("down"@ != "right"@) by { assert("down"@.len() != "right"@.len()); }
    assert("left"@ != "right"@) by { assert("left"@.len() != "right"@.len()); }
    assert("lt"@ != "rt"@) by { assert("lt"@[0] != "rt"@[0]); }
}

} // verus!
