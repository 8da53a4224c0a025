//! One touch contact, collected point by point. A touch report carries the
//! button and the coordinates in the same packet, and the button arrives
//! first, so a point taken at press time would be the previous contact's.
//! Points are collected on the report boundary instead: never half a sample,
//! never a leftover position. Coordinates are the percentages the event
//! loop computes.

use vstd::prelude::*;

verus! {

pub struct Stroke {
    /// The latest position reported, horizontal then vertical.
    pub pos: (i32, i32),
    /// A contact is open.
    pub down: bool,
    /// The positions at each report boundary since the contact opened.
    pub points: Vec<(i32, i32)>,
}

impl Default for Stroke {
    fn default() -> (r: Stroke)
        ensures
            r.pos == (0i32, 0i32),
            !r.down,
            r.points@.len() == 0,
    {
        Stroke { pos: (0, 0), down: false, points: Vec::new() }
    }
}

pub open spec fn axis_post(pre: Stroke, horizontal: bool, pct: i32, post: Stroke) -> bool {
    &&& post.pos == if horizontal { (pct, pre.pos.1) } else { (pre.pos.0, pct) }
    &&& post.down == pre.down
    &&& post.points@ == pre.points@
}

pub open spec fn press_post(pre: Stroke, post: Stroke) -> bool {
    &&& post.down
    &&& post.pos == pre.pos
    &&& post.points@.len() == 0
}

pub open spec fn sync_post(pre: Stroke, post: Stroke) -> bool {
    &&& post.down == pre.down
    &&& post.pos == pre.pos
    &&& post.points@ == if pre.down { pre.points@.push(pre.pos) } else { pre.points@ }
}

pub open spec fn release_post(pre: Stroke, post: Stroke, r: Option<Vec<(i32, i32)>>) -> bool {
    &&& !post.down
    &&& post.pos == pre.pos
    &&& match r {
        Some(p) => pre.down && p@ == pre.points@ && post.points@.len() == 0,
        None => !pre.down && post.points@ == pre.points@,
    }
}

impl Stroke {
    /// A coordinate report: the horizontal or the vertical position moves.
    pub fn axis(&mut self, horizontal: bool, pct: i32)
        ensures
            axis_post(*old(self), horizontal, pct, *final(self)),
    {
        if horizontal {
            self.pos.0 = pct;
        } else {
            self.pos.1 = pct;
        }
    }

    /// The contact opens; whatever an earlier one left is dropped.
    pub fn press(&mut self)
        ensures
            press_post(*old(self), *final(self)),
    {
        self.down = true;
        self.points.clear();
    }

    /// A report boundary: the position is a point of the open contact.
    pub fn sync(&mut self)
        ensures
            sync_post(*old(self), *final(self)),
    {
        if self.down {
            self.points.push(self.pos);
        }
    }

    /// The finished path, or None if no press opened it.
    pub fn release(&mut self) -> (r: Option<Vec<(i32, i32)>>)
        ensures
            release_post(*old(self), *final(self), r),
    {
        if !self.down {
            return None;
        }
        self.down = false;
        let mut out: Vec<(i32, i32)> = Vec::new();
        std::mem::swap(&mut out, &mut self.points);
        Some(out)
    }
}

/// A stroke starts where the finger lands, not where the last one ended:
/// the press opens an empty path, and the first point is the position the
/// report carrying the press ends with.
pub proof fn law_stroke_starts_where_the_finger_lands(
    s0: Stroke,
    s1: Stroke,
    x: i32,
    s2: Stroke,
    y: i32,
    s3: Stroke,
    s4: Stroke,
    s5: Stroke,
    r: Option<Vec<(i32, i32)>>,
)
    requires
        press_post(s0, s1),
        axis_post(s1, true, x, s2),
        axis_post(s2, false, y, s3),
        sync_post(s3, s4),
        release_post(s4, s5, r),
    ensures
        r matches Some(p) && p@ == seq![(x, y)],
{
    assert(s4.points@ =~= seq![(x, y)]);
}

/// A path is handed out once: a second release without a press gives
/// nothing.
pub proof fn law_stroke_released_once(s0: Stroke, s1: Stroke, r1: Option<Vec<(i32, i32)>>, s2: Stroke, r2: Option<Vec<(i32, i32)>>)
    requires
        release_post(s0, s1, r1),
        release_post(s1, s2, r2),
    ensures
        r2 is None,
{
}

} // verus!
