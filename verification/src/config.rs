//! What a device's section of the configuration says.

use vstd::prelude::*;
use std::collections::HashMap;

verus! {

broadcast use vstd::std_specs::hash::group_hash_axioms;

/// A D-pad direction (Hat0X -1/+1 is left/right, Hat0Y -1/+1 is up/down).
#[derive(Clone, Copy, PartialEq, Eq, Structural, Debug)]
pub enum DpadDirection {
    Up,
    Down,
    Left,
    Right,
}

/// An analogue trigger: Gas (code 9) is the right one, Brake (10) the left.
#[derive(Clone, Copy, PartialEq, Eq, Structural, Debug)]
pub enum Trigger {
    LT,
    RT,
}

/// One value per D-pad direction.
pub struct PerDirection<T> {
    pub up: T,
    pub down: T,
    pub left: T,
    pub right: T,
}

impl<T> PerDirection<T> {
    pub open spec fn at(&self, d: DpadDirection) -> T {
        match d {
            DpadDirection::Up => self.up,
            DpadDirection::Down => self.down,
            DpadDirection::Left => self.left,
            DpadDirection::Right => self.right,
        }
    }

    pub fn get(&self, d: DpadDirection) -> (r: &T)
        ensures
            *r == self.at(d),
    {
        match d {
            DpadDirection::Up => &self.up,
            DpadDirection::Down => &self.down,
            DpadDirection::Left => &self.left,
            DpadDirection::Right => &self.right,
        }
    }

    /// The same values but `v` for `d`.
    pub open spec fn put(self, d: DpadDirection, v: T) -> Self {
        match d {
            DpadDirection::Up => PerDirection { up: v, down: self.down, left: self.left, right: self.right },
            DpadDirection::Down => PerDirection { up: self.up, down: v, left: self.left, right: self.right },
            DpadDirection::Left => PerDirection { up: self.up, down: self.down, left: v, right: self.right },
            DpadDirection::Right => PerDirection { up: self.up, down: self.down, left: self.left, right: v },
        }
    }

    pub fn set(&mut self, d: DpadDirection, v: T)
        ensures
            *final(self) == old(self).put(d, v),
            forall|e: DpadDirection| #[trigger] final(self).at(e) == if e == d { v } else { old(self).at(e) },
    {
        match d {
            DpadDirection::Up => self.up = v,
            DpadDirection::Down => self.down = v,
            DpadDirection::Left => self.left = v,
            DpadDirection::Right => self.right = v,
        }
    }
}

/// One value per trigger.
pub struct PerTrigger<T> {
    pub lt: T,
    pub rt: T,
}

impl<T> PerTrigger<T> {
    pub open spec fn at(&self, t: Trigger) -> T {
        match t {
            Trigger::LT => self.lt,
            Trigger::RT => self.rt,
        }
    }

    pub fn get(&self, t: Trigger) -> (r: &T)
        ensures
            *r == self.at(t),
    {
        match t {
            Trigger::LT => &self.lt,
            Trigger::RT => &self.rt,
        }
    }

    /// The same values but `v` for `t`.
    pub open spec fn put(self, t: Trigger, v: T) -> Self {
        match t {
            Trigger::LT => PerTrigger { lt: v, rt: self.rt },
            Trigger::RT => PerTrigger { lt: self.lt, rt: v },
        }
    }

    pub fn set(&mut self, t: Trigger, v: T)
        ensures
            *final(self) == old(self).put(t, v),
            forall|e: Trigger| #[trigger] final(self).at(e) == if e == t { v } else { old(self).at(e) },
    {
        match t {
            Trigger::LT => self.lt = v,
            Trigger::RT => self.rt = v,
        }
    }
}

/// An equal copy of an optional script.
pub fn copy_script(s: &Option<String>) -> (r: Option<String>)
    ensures
        r == *s,
{
    match s {
        Some(t) => Some(t.clone()),
        None => None,
    }
}

pub fn copy_per_direction(p: &PerDirection<Option<String>>) -> (r: PerDirection<Option<String>>)
    ensures
        r == *p,
{
    PerDirection {
        up: copy_script(&p.up),
        down: copy_script(&p.down),
        left: copy_script(&p.left),
        right: copy_script(&p.right),
    }
}

pub fn copy_per_trigger(p: &PerTrigger<Option<String>>) -> (r: PerTrigger<Option<String>>)
    ensures
        r == *p,
{
    PerTrigger { lt: copy_script(&p.lt), rt: copy_script(&p.rt) }
}

/// One `[device.X]` block of the configuration.
pub struct DeviceConfig {
    pub id: String,
    /// Device name to match, when no uniq is given.
    pub name: Option<String>,
    /// Bluetooth address (or other uniq) to match; wins over the name.
    pub uniq: Option<String>,
    /// Whether the file asks for an exclusive grab.
    pub grab: bool,
    /// Whether `grab` was written in the file rather than defaulted.
    pub grab_explicit: bool,
    /// Relay pointer motion and unmapped buttons.
    pub mouse: bool,
    /// Relay unmapped keys through the virtual keyboard.
    pub passthrough: bool,
    pub keyboard_layout: Option<String>,
    /// Button code to script.
    pub mappings: HashMap<u16, String>,
    /// Button code to script run on a long press.
    pub long_press_mappings: HashMap<u16, String>,
    pub dpad_mappings: PerDirection<Option<String>>,
    pub dpad_longpress_mappings: PerDirection<Option<String>>,
    pub trigger_mappings: PerTrigger<Option<String>>,
    pub trigger_longpress_mappings: PerTrigger<Option<String>>,
}

impl DeviceConfig {
    /// Nothing is bound: no button, D-pad direction or trigger.
    pub open spec fn spec_unmapped(&self) -> bool {
        &&& self.mappings@.is_empty()
        &&& self.long_press_mappings@.is_empty()
        &&& forall|d: DpadDirection| #[trigger] self.dpad_mappings.at(d) is None
            && self.dpad_longpress_mappings.at(d) is None
        &&& forall|t: Trigger| #[trigger] self.trigger_mappings.at(t) is None
            && self.trigger_longpress_mappings.at(t) is None
    }

    pub fn is_unmapped(&self) -> (r: bool)
        ensures
            r == self.spec_unmapped(),
    {
        let dirs_free = self.dpad_mappings.up.is_none() && self.dpad_mappings.down.is_none()
            && self.dpad_mappings.left.is_none() && self.dpad_mappings.right.is_none()
            && self.dpad_longpress_mappings.up.is_none() && self.dpad_longpress_mappings.down.is_none()
            && self.dpad_longpress_mappings.left.is_none() && self.dpad_longpress_mappings.right.is_none();
        let triggers_free = self.trigger_mappings.lt.is_none() && self.trigger_mappings.rt.is_none()
            && self.trigger_longpress_mappings.lt.is_none() && self.trigger_longpress_mappings.rt.is_none();
        let r = self.mappings.is_empty() && self.long_press_mappings.is_empty() && dirs_free && triggers_free;
        proof {
            if !dirs_free {
                if self.dpad_mappings.up.is_some() || self.dpad_longpress_mappings.up.is_some() {
                    assert(self.dpad_mappings.at(DpadDirection::Up) is Some || self.dpad_longpress_mappings.at(DpadDirection::Up) is Some);
                } else if self.dpad_mappings.down.is_some() || self.dpad_longpress_mappings.down.is_some() {
                    assert(self.dpad_mappings.at(DpadDirection::Down) is Some || self.dpad_longpress_mappings.at(DpadDirection::Down) is Some);
                } else if self.dpad_mappings.left.is_some() || self.dpad_longpress_mappings.left.is_some() {
                    assert(self.dpad_mappings.at(DpadDirection::Left) is Some || self.dpad_longpress_mappings.at(DpadDirection::Left) is Some);
                } else {
                    assert(self.dpad_mappings.at(DpadDirection::Right) is Some || self.dpad_longpress_mappings.at(DpadDirection::Right) is Some);
                }
            }
            if !triggers_free {
                if self.trigger_mappings.lt.is_some() || self.trigger_longpress_mappings.lt.is_some() {
                    assert(self.trigger_mappings.at(Trigger::LT) is Some || self.trigger_longpress_mappings.at(Trigger::LT) is Some);
                } else {
                    assert(self.trigger_mappings.at(Trigger::RT) is Some || self.trigger_longpress_mappings.at(Trigger::RT) is Some);
                }
            }
        }
        r
    }
}

impl DeviceConfig {
    /// `other` says what this config says.
    pub open spec fn same_as(&self, other: &DeviceConfig) -> bool {
        &&& self.id@ == other.id@
        &&& self.name == other.name
        &&& self.uniq == other.uniq
        &&& self.grab == other.grab
        &&& self.grab_explicit == other.grab_explicit
        &&& self.mouse == other.mouse
        &&& self.passthrough == other.passthrough
        &&& self.keyboard_layout == other.keyboard_layout
        &&& self.mappings@ == other.mappings@
        &&& self.long_press_mappings@ == other.long_press_mappings@
        &&& self.dpad_mappings == other.dpad_mappings
        &&& self.dpad_longpress_mappings == other.dpad_longpress_mappings
        &&& self.trigger_mappings == other.trigger_mappings
        &&& self.trigger_longpress_mappings == other.trigger_longpress_mappings
    }

    /// A copy saying the same.
    pub fn copied(&self) -> (r: DeviceConfig)
        ensures
            r.same_as(self),
    {
        DeviceConfig {
            id: self.id.clone(),
            name: copy_script(&self.name),
            uniq: copy_script(&self.uniq),
            grab: self.grab,
            grab_explicit: self.grab_explicit,
            mouse: self.mouse,
            passthrough: self.passthrough,
            keyboard_layout: copy_script(&self.keyboard_layout),
            mappings: self.mappings.clone(),
            long_press_mappings: self.long_press_mappings.clone(),
            dpad_mappings: copy_per_direction(&self.dpad_mappings),
            dpad_longpress_mappings: copy_per_direction(&self.dpad_longpress_mappings),
            trigger_mappings: copy_per_trigger(&self.trigger_mappings),
            trigger_longpress_mappings: copy_per_trigger(&self.trigger_longpress_mappings),
        }
    }
}

} // verus!
