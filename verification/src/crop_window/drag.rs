//! Dragging a piece by its strip.

use vstd::prelude::*;

use crate::crop_window::Point;
use crate::num::{clamp_i32, saturating_minus};

verus! {

/// The state of a drag: whether one runs, how far the cursor was from the
/// content's corner when it began, and where the content is now.
#[derive(Debug, Clone, Copy, PartialEq, Eq, Structural)]
pub struct DragTracker {
    pub active: bool,
    pub offset: Point,
    pub current: Point,
}

/// What one step of a drag gives.
#[derive(Debug, Clone, Copy, PartialEq, Eq, Structural)]
pub enum DragUpdate {
    /// The content belongs at this point now.
    Moved(Point),
    /// The drag is over, and the content stays at this point.
    Ended(Point),
}

/// The vector from `b` to `a`, held at the ends of the range.
pub open spec fn apart(a: Point, b: Point) -> Point {
    Point { x: clamp_i32(a.x - b.x), y: clamp_i32(a.y - b.y) }
}

fn between(a: Point, b: Point) -> (r: Point)
    ensures
        r == apart(a, b),
{
    Point { x: saturating_minus(a.x, b.x), y: saturating_minus(a.y, b.y) }
}

impl Default for DragTracker {
    fn default() -> (r: Self)
        ensures
            !r.active,
            r.offset == (Point { x: 0, y: 0 }),
            r.current == (Point { x: 0, y: 0 }),
    {
        Self::new()
    }
}

impl DragTracker {
    /// A tracker with no drag running.
    pub fn new() -> (r: Self)
        ensures
            !r.active,
            r.offset == (Point { x: 0, y: 0 }),
            r.current == (Point { x: 0, y: 0 }),
    {
        Self { active: false, offset: Point { x: 0, y: 0 }, current: Point { x: 0, y: 0 } }
    }

    /// The tracker after a drag has begun.
    pub open spec fn begun(cursor: Point, content: Point) -> Self {
        Self { active: true, offset: apart(cursor, content), current: content }
    }

    /// Begin a drag: remember how far the cursor is from the content's corner.
    pub fn begin(&mut self, cursor: Point, content: Point)
        ensures
            *final(self) == Self::begun(cursor, content),
    {
        self.active = true;
        self.offset = between(cursor, content);
        self.current = content;
    }

    /// The tracker after the cursor has moved.
    pub open spec fn after_move(self, cursor: Point, left_down: bool) -> Self {
        if !self.active {
            self
        } else if !left_down {
            Self { active: false, ..self }
        } else {
            Self { current: apart(cursor, self.offset), ..self }
        }
    }

    /// What a cursor move gives: nothing without a drag, the end of it where
    /// the button is no longer held, and else the content's new place.
    pub open spec fn move_update(self, cursor: Point, left_down: bool) -> Option<DragUpdate> {
        if !self.active {
            None
        } else if !left_down {
            Some(DragUpdate::Ended(self.current))
        } else {
            Some(DragUpdate::Moved(apart(cursor, self.offset)))
        }
    }

    /// Follow the cursor. A button that is physically up ends the drag before
    /// anything moves.
    pub fn move_cursor(&mut self, cursor: Point, left_down: bool) -> (r: Option<DragUpdate>)
        ensures
            *final(self) == old(self).after_move(cursor, left_down),
            r == old(self).move_update(cursor, left_down),
    {
        if !self.active {
            return None;
        }
        if !left_down {
            return self.end();
        }
        self.current = between(cursor, self.offset);
        Some(DragUpdate::Moved(self.current))
    }

    /// What the end of a drag gives.
    pub open spec fn end_update(self) -> Option<DragUpdate> {
        if self.active {
            Some(DragUpdate::Ended(self.current))
        } else {
            None
        }
    }

    /// End the drag. Without one running this gives nothing.
    pub fn end(&mut self) -> (r: Option<DragUpdate>)
        ensures
            *final(self) == (DragTracker { active: false, ..*old(self) }),
            r == old(self).end_update(),
    {
        if !self.active {
            return None;
        }
        self.active = false;
        Some(DragUpdate::Ended(self.current))
    }

    /// Whether a drag runs.
    pub fn is_active(&self) -> (r: bool)
        ensures
            r == self.active,
    {
        self.active
    }
}

/// A drag ends once: whatever ends it first, every further end and every
/// further move gives nothing and changes nothing.
pub proof fn drag_ends_once(t: DragTracker, cursor: Point, left_down: bool)
    ensures
        ({
            let ended = DragTracker { active: false, ..t };
            &&& ended.end_update() is None
            &&& ended.move_update(cursor, left_down) is None
            &&& ended.after_move(cursor, left_down) == ended
        }),
        t.active && !left_down ==> t.after_move(cursor, left_down) == (DragTracker {
            active: false,
            ..t
        }) && t.move_update(cursor, left_down) == t.end_update(),
{
}

/// While the button is held the content keeps its distance from the cursor.
pub proof fn drag_keeps_the_grip(cursor: Point, content: Point, to: Point)
    requires
        i32::MIN <= cursor.x - content.x <= i32::MAX,
        i32::MIN <= cursor.y - content.y <= i32::MAX,
        i32::MIN <= to.x - (cursor.x - content.x) <= i32::MAX,
        i32::MIN <= to.y - (cursor.y - content.y) <= i32::MAX,
    ensures
        DragTracker::begun(cursor, content).move_update(to, true) matches Some(
            DragUpdate::Moved(p),
        ) && p.x == content.x + (to.x - cursor.x) && p.y == content.y + (to.y - cursor.y),
        DragTracker::begun(cursor, content).after_move(to, true).end_update() == Some(
            DragUpdate::Ended(
                Point {
                    x: (content.x + (to.x - cursor.x)) as i32,
                    y: (content.y + (to.y - cursor.y)) as i32,
                },
            ),
        ),
{
}

/// A distance that does not fit a coordinate is held at the end of the range on
/// its own side; any other is the distance.
pub proof fn distance_is_held_at_the_ends(a: Point, b: Point)
    ensures
        a.x - b.x > i32::MAX ==> apart(a, b).x == i32::MAX,
        a.x - b.x < i32::MIN ==> apart(a, b).x == i32::MIN,
        a.y - b.y > i32::MAX ==> apart(a, b).y == i32::MAX,
        a.y - b.y < i32::MIN ==> apart(a, b).y == i32::MIN,
        i32::MIN <= a.x - b.x <= i32::MAX ==> apart(a, b).x == a.x - b.x,
        i32::MIN <= a.y - b.y <= i32::MAX ==> apart(a, b).y == a.y - b.y,
{
}

/// A drag goes from press to release: begun, it is under way with the content where
/// it is; a move takes the content to its distance from the cursor, at the ends of
/// the range too; its end reports where the content was last.
pub proof fn drag_runs_from_press_to_release(t: DragTracker, cursor: Point, content: Point)
    ensures
        DragTracker::begun(cursor, content).active,
        DragTracker::begun(cursor, content).current == content,
        DragTracker::begun(cursor, content).offset == apart(cursor, content),
        t.active ==> t.move_update(cursor, true) == Some(
            DragUpdate::Moved(apart(cursor, t.offset)),
        ),
        t.active ==> t.after_move(cursor, true) == (DragTracker {
            active: true,
            offset: t.offset,
            current: apart(cursor, t.offset),
        }),
        t.active ==> t.move_update(cursor, false) == Some(DragUpdate::Ended(t.current)),
        t.active ==> t.end_update() == Some(DragUpdate::Ended(t.current)),
        !t.active ==> t.end_update() is None && t.move_update(cursor, true) is None
            && t.after_move(cursor, true) == t,
{
}

} // verus!
