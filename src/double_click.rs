use vstd::prelude::*;

use crate::pointer::Button;

verus! {

/// The last press that could still begin a double-click.
#[derive(Clone, Copy, Debug, PartialEq, Eq, Structural)]
pub struct PressRecord {
    pub button: Button,
    pub time: u32,
    pub x: i32,
    pub y: i32,
}

/// Synthesises double-clicks from discrete presses, as the low-level hook never sees one.
#[derive(Clone, Copy, Debug)]
pub struct DoubleClickTracker {
    pub last: Option<PressRecord>,
    /// Longest interval between the two presses, in milliseconds.
    pub max_interval: u32,
    /// Largest horizontal and vertical distance between the two presses, in pixels.
    pub max_dx: i32,
    pub max_dy: i32,
}

pub open spec fn abs_diff(a: i32, b: i32) -> int {
    if a >= b {
        a - b
    } else {
        b - a
    }
}

/// Whether a press of `b` at `time` and (`x`, `y`) completes a double-click with the
/// recorded press: same button, later but within the interval, and within the distance.
pub open spec fn completes_double(t: DoubleClickTracker, b: Button, time: u32, x: i32, y: i32) -> bool {
    match t.last {
        Some(r) => r.button == b && time > r.time && time - r.time <= t.max_interval && abs_diff(x, r.x)
            <= t.max_dx && abs_diff(y, r.y) <= t.max_dy,
        None => false,
    }
}

/// The tracker after a press: a double-click clears the record, any other press replaces it.
pub open spec fn after_press(t: DoubleClickTracker, b: Button, time: u32, x: i32, y: i32) -> DoubleClickTracker {
    DoubleClickTracker {
        last: if completes_double(t, b, time, x, y) {
            None
        } else {
            Some(PressRecord { button: b, time, x, y })
        },
        ..t
    }
}

impl DoubleClickTracker {
    /// A tracker with no press recorded. The platform gives the double-click area as a
    /// rectangle centred on the first press, so the distance allowed is half of each side.
    pub fn new(interval_ms: u32, area_width: u32, area_height: u32) -> (r: DoubleClickTracker)
        ensures
            r.last is None,
            r.max_interval == interval_ms,
            r.max_dx == area_width / 2,
            r.max_dy == area_height / 2,
    {
        DoubleClickTracker {
            last: None,
            max_interval: interval_ms,
            max_dx: (area_width / 2) as i32,
            max_dy: (area_height / 2) as i32,
        }
    }

    /// Records a press and says whether it is the second press of a double-click.
    pub fn on_press(&mut self, b: Button, time: u32, x: i32, y: i32) -> (is_double: bool)
        ensures
            is_double == completes_double(*old(self), b, time, x, y),
            *final(self) == after_press(*old(self), b, time, x, y),
    {
        let is_double = match self.last {
            Some(r) => {
                let dx: i64 = if x >= r.x {
                    x as i64 - r.x as i64
                } else {
                    r.x as i64 - x as i64
                };
                let dy: i64 = if y >= r.y {
                    y as i64 - r.y as i64
                } else {
                    r.y as i64 - y as i64
                };
                r.button == b && time > r.time && time - r.time <= self.max_interval && dx
                    <= self.max_dx as i64 && dy <= self.max_dy as i64
            },
            None => false,
        };
        if is_double {
            self.last = None;
        } else {
            self.last = Some(PressRecord { button: b, time, x, y });
        }
        is_double
    }
}

/// Two presses of the same button, the second later than the first by no more than the
/// interval and no farther than the distance in each direction, make one double-click:
/// with no press recorded before, the first counts as a single press and the second as
/// the double-click, after which nothing is recorded.
pub proof fn lemma_double_click_fidelity(
    t: DoubleClickTracker,
    b: Button,
    t1: u32,
    x1: i32,
    y1: i32,
    t2: u32,
    x2: i32,
    y2: i32,
)
    requires
        t.last is None,
        t1 < t2,
        t2 - t1 <= t.max_interval,
        abs_diff(x2, x1) <= t.max_dx,
        abs_diff(y2, y1) <= t.max_dy,
    ensures
        !completes_double(t, b, t1, x1, y1),
        completes_double(after_press(t, b, t1, x1, y1), b, t2, x2, y2),
        after_press(after_press(t, b, t1, x1, y1), b, t2, x2, y2).last is None,
{
}

} // verus!
