//! The mouse on an overlay window: who holds it, and what the editor is told.

use vstd::prelude::*;

use crate::num::{high_word, low_word, low_words};
use crate::winapi::{
    MK_CONTROL, MK_SHIFT, WM_CAPTURECHANGED, WM_LBUTTONDOWN, WM_LBUTTONUP, WM_MOUSEMOVE,
};

pub mod cursor;

pub use cursor::{CursorManager, CursorShape, CursorZone, Handle};

verus! {

/// A point in client coordinates of an overlay window, in physical pixels.
#[derive(Debug, Clone, Copy, PartialEq, Eq, Structural)]
pub struct Point {
    pub x: i32,
    pub y: i32,
}

impl Default for Point {
    fn default() -> (r: Self)
        ensures
            r == (Point { x: 0, y: 0 }),
    {
        Point { x: 0, y: 0 }
    }
}

/// The keys held while a mouse event happens.
#[derive(Debug, Clone, Copy, PartialEq, Eq, Structural)]
pub struct Modifiers {
    pub shift: bool,
    pub ctrl: bool,
    pub alt: bool,
}

impl Default for Modifiers {
    fn default() -> (r: Self)
        ensures
            r == (Modifiers { shift: false, ctrl: false, alt: false }),
    {
        Modifiers { shift: false, ctrl: false, alt: false }
    }
}

impl Modifiers {
    /// The keys that a mouse message names in its flags, and Alt, which it
    /// does not name.
    pub open spec fn spec_from_flags(wparam_bits: u32, alt_down: bool) -> Self {
        Modifiers {
            shift: wparam_bits & MK_SHIFT != 0,
            ctrl: wparam_bits & MK_CONTROL != 0,
            alt: alt_down,
        }
    }

    /// The keys that a mouse message names in its flags, and Alt, which it
    /// does not name.
    pub fn from_flags(wparam_bits: u32, alt_down: bool) -> (r: Self)
        ensures
            r == Self::spec_from_flags(wparam_bits, alt_down),
    {
        Self {
            shift: wparam_bits & MK_SHIFT != 0,
            ctrl: wparam_bits & MK_CONTROL != 0,
            alt: alt_down,
        }
    }
}

/// A mouse event for the editor.
#[derive(Debug, Clone, Copy, PartialEq, Eq, Structural)]
pub enum InputEvent {
    /// The left button went down, and the window has taken the mouse.
    MouseDown { pos: Point, modifiers: Modifiers },
    /// The cursor moved; `dragging` while the window holds the mouse.
    MouseMove { pos: Point, modifiers: Modifiers, dragging: bool },
    /// The left button went up after a [`InputEvent::MouseDown`], and the mouse
    /// is free again.
    MouseUp { pos: Point, modifiers: Modifiers },
    /// Something else took the mouse: the gesture is off.
    CaptureLost,
    /// The wheel turned by this many notches, forward counting up.
    MouseWheel { notches: i32 },
}

/// What to do about the mouse capture.
#[derive(Debug, Clone, Copy, PartialEq, Eq, Structural)]
pub enum CaptureOp {
    Keep,
    Take,
    Release,
}

/// Whether the mouse is held after a message, what is to be done about it, and
/// what the editor is told. A release that belongs to no press, and a loss of
/// what was not held, concern nobody here.
pub open spec fn spec_transition(
    captured: bool,
    msg: u32,
    pos: Point,
    modifiers: Modifiers,
) -> (bool, CaptureOp, Option<InputEvent>) {
    if msg == WM_LBUTTONDOWN {
        (true, CaptureOp::Take, Some(InputEvent::MouseDown { pos, modifiers }))
    } else if msg == WM_MOUSEMOVE {
        (
            captured,
            CaptureOp::Keep,
            Some(InputEvent::MouseMove { pos, modifiers, dragging: captured }),
        )
    } else if msg == WM_LBUTTONUP {
        if captured {
            (false, CaptureOp::Release, Some(InputEvent::MouseUp { pos, modifiers }))
        } else {
            (false, CaptureOp::Keep, None)
        }
    } else if msg == WM_CAPTURECHANGED && captured {
        (false, CaptureOp::Keep, Some(InputEvent::CaptureLost))
    } else {
        (captured, CaptureOp::Keep, None)
    }
}

/// Whether the mouse is held after a message, what is to be done about it, and
/// what the editor is told.
pub fn transition(captured: bool, msg: u32, pos: Point, modifiers: Modifiers) -> (r: (
    bool,
    CaptureOp,
    Option<InputEvent>,
))
    ensures
        r == spec_transition(captured, msg, pos, modifiers),
{
    if msg == WM_LBUTTONDOWN {
        (true, CaptureOp::Take, Some(InputEvent::MouseDown { pos, modifiers }))
    } else if msg == WM_MOUSEMOVE {
        (
            captured,
            CaptureOp::Keep,
            Some(InputEvent::MouseMove { pos, modifiers, dragging: captured }),
        )
    } else if msg == WM_LBUTTONUP {
        if captured {
            (false, CaptureOp::Release, Some(InputEvent::MouseUp { pos, modifiers }))
        } else {
            (false, CaptureOp::Keep, None)
        }
    } else if msg == WM_CAPTURECHANGED && captured {
        (false, CaptureOp::Keep, Some(InputEvent::CaptureLost))
    } else {
        (captured, CaptureOp::Keep, None)
    }
}

/// The point that a mouse message carries.
pub open spec fn spec_lparam_point(lparam: isize) -> Point {
    Point { x: low_word(lparam), y: high_word(lparam) }
}

/// The point that a mouse message carries.
pub fn lparam_point(lparam: isize) -> (r: Point)
    ensures
        r == spec_lparam_point(lparam),
{
    let (x, y) = low_words(lparam);
    Point { x, y }
}

/// A message about the left button, with what the system says of the moment.
#[derive(Debug, Clone, Copy, PartialEq, Eq, Structural)]
pub struct MouseMessage {
    pub msg: u32,
    pub wparam: usize,
    pub lparam: isize,
    /// Alt is held.
    pub alt_down: bool,
    /// The left button is physically down.
    pub left_down: bool,
}

impl MouseMessage {
    /// The point that the message carries.
    pub open spec fn pos(self) -> Point {
        spec_lparam_point(self.lparam)
    }

    /// The keys held with it.
    pub open spec fn modifiers(self) -> Modifiers {
        Modifiers::spec_from_flags(self.wparam as u32, self.alt_down)
    }
}

/// Who holds the mouse on an overlay window.
#[derive(Debug, Clone, Copy, PartialEq, Eq, Structural)]
pub struct MouseCapture {
    pub captured: bool,
    /// The last place that a drag has reacted to.
    pub last_drag_pos: Option<Point>,
}

impl MouseCapture {
    /// Nobody holds the mouse.
    pub fn new() -> (r: Self)
        ensures
            !r.captured,
            r.last_drag_pos is None,
    {
        Self { captured: false, last_drag_pos: None }
    }

    /// Whether the window holds the mouse.
    pub fn is_captured(&self) -> (r: bool)
        ensures
            r == self.captured,
    {
        self.captured
    }

    /// What a message means: a move while the mouse is held, with the button
    /// already up, is the release that got lost.
    pub open spec fn effective(self, m: MouseMessage) -> u32 {
        if m.msg == WM_MOUSEMOVE && self.captured && !m.left_down {
            WM_LBUTTONUP
        } else {
            m.msg
        }
    }

    /// A move that the system repeats though the cursor has not moved.
    pub open spec fn is_repeat(self, m: MouseMessage) -> bool {
        self.effective(m) == WM_MOUSEMOVE && self.captured && self.last_drag_pos == Some(m.pos())
    }

    /// The state after a message.
    pub open spec fn after(self, m: MouseMessage) -> Self {
        if self.is_repeat(m) {
            self
        } else {
            let captured = spec_transition(
                self.captured,
                self.effective(m),
                m.pos(),
                m.modifiers(),
            ).0;
            MouseCapture {
                captured,
                last_drag_pos: if captured {
                    Some(m.pos())
                } else {
                    None
                },
            }
        }
    }

    /// What a message does: what becomes of the capture, and the event.
    pub open spec fn outcome(self, m: MouseMessage) -> (CaptureOp, Option<InputEvent>) {
        if self.is_repeat(m) {
            (CaptureOp::Keep, None)
        } else {
            let (_, op, event) = spec_transition(
                self.captured,
                self.effective(m),
                m.pos(),
                m.modifiers(),
            );
            (op, event)
        }
    }

    /// Handle a message. An event means that the message was for this window;
    /// without one it goes on to the system.
    pub fn handle_message_checked(&mut self, m: &MouseMessage) -> (r: (
        CaptureOp,
        Option<InputEvent>,
    ))
        ensures
            *final(self) == old(self).after(*m),
            r == old(self).outcome(*m),
    {
        let pos = lparam_point(m.lparam);
        let modifiers = Modifiers::from_flags(m.wparam as u32, m.alt_down);
        let effective: u32 = if m.msg == WM_MOUSEMOVE && self.captured && !m.left_down {
            WM_LBUTTONUP
        } else {
            m.msg
        };
        if effective == WM_MOUSEMOVE && self.captured {
            if let Some(last) = self.last_drag_pos {
                if last == pos {
                    return (CaptureOp::Keep, None);
                }
            }
        }
        let (captured, op, event) = transition(self.captured, effective, pos, modifiers);
        self.captured = captured;
        self.last_drag_pos =
        if captured {
            Some(pos)
        } else {
            None
        };
        (op, event)
    }

    /// What a message tells the editor on a window that may not take the mouse:
    /// presses, moves and releases, none of them a drag.
    pub open spec fn spec_handle_message_no_capture(msg: u32, lparam: isize) -> Option<InputEvent> {
        let pos = spec_lparam_point(lparam);
        let modifiers = Modifiers { shift: false, ctrl: false, alt: false };
        if msg == WM_LBUTTONDOWN {
            Some(InputEvent::MouseDown { pos, modifiers })
        } else if msg == WM_MOUSEMOVE {
            Some(InputEvent::MouseMove { pos, modifiers, dragging: false })
        } else if msg == WM_LBUTTONUP {
            Some(InputEvent::MouseUp { pos, modifiers })
        } else {
            None
        }
    }

    /// Handle a message on a window that may not take the mouse.
    pub fn handle_message_no_capture(&self, msg: u32, lparam: isize) -> (r: Option<InputEvent>)
        ensures
            r == Self::spec_handle_message_no_capture(msg, lparam),
    {
        let pos = lparam_point(lparam);
        let modifiers = Modifiers { shift: false, ctrl: false, alt: false };
        if msg == WM_LBUTTONDOWN {
            Some(InputEvent::MouseDown { pos, modifiers })
        } else if msg == WM_MOUSEMOVE {
            Some(InputEvent::MouseMove { pos, modifiers, dragging: false })
        } else if msg == WM_LBUTTONUP {
            Some(InputEvent::MouseUp { pos, modifiers })
        } else {
            None
        }
    }

    /// Give the mouse back whatever the state, without an event: the mode in
    /// which it could be held is over.
    pub fn force_release(&mut self) -> (r: CaptureOp)
        ensures
            *final(self) == (MouseCapture { captured: false, ..*old(self) }),
            r == CaptureOp::Release,
    {
        self.captured = false;
        CaptureOp::Release
    }
}

impl Default for MouseCapture {
    fn default() -> (r: Self)
        ensures
            !r.captured,
            r.last_drag_pos is None,
    {
        Self::new()
    }
}

/// The books agree with the system: the capture is set exactly by the messages
/// after which the window says it holds the mouse anew, and given back exactly
/// where it stops saying so with the release event.
pub proof fn capture_is_balanced(c: MouseCapture, m: MouseMessage)
    ensures
        c.outcome(m).0 == CaptureOp::Take <==> m.msg == WM_LBUTTONDOWN,
        c.outcome(m).0 == CaptureOp::Take ==> c.after(m).captured,
        c.outcome(m).0 == CaptureOp::Release ==> c.captured && !c.after(m).captured,
        c.captured && !c.after(m).captured ==> (c.outcome(m).0 == CaptureOp::Release
            && c.outcome(m).1 is Some && c.outcome(m).1->0 is MouseUp) || (m.msg
            == WM_CAPTURECHANGED && c.outcome(m).1 == Some(InputEvent::CaptureLost)),
{
}

/// Every drag comes to an end: while the mouse is held, the first message that
/// sees the button up, a release or a move, gives it back and says so.
pub proof fn button_up_ends_the_drag(c: MouseCapture, m: MouseMessage)
    requires
        c.captured,
        m.msg == WM_LBUTTONUP || (m.msg == WM_MOUSEMOVE && !m.left_down),
    ensures
        !c.after(m).captured,
        c.outcome(m) == (
            CaptureOp::Release,
            Some(InputEvent::MouseUp { pos: m.pos(), modifiers: m.modifiers() }),
        ),
{
}

/// A move is reported as a drag only while the mouse is held and the button is
/// down, and the same place is not reported twice in a row.
pub proof fn drags_are_real(c: MouseCapture, m: MouseMessage, again: MouseMessage)
    ensures
        (c.outcome(m).1 matches Some(InputEvent::MouseMove { dragging, .. }) && dragging)
            ==> c.captured && m.left_down,
        c.captured && m.msg == WM_MOUSEMOVE && m.left_down && again.msg == WM_MOUSEMOVE
            && again.left_down && again.pos() == m.pos() ==> c.after(m).outcome(again).1 is None,
{
}

} // verus!
