//! What the numbers in window messages mean.

use vstd::prelude::*;

use crate::input::CursorShape;
use crate::overlay::OverlayEvent;
use crate::utf16::{leading, pair, surrogate, trailing};
use crate::winapi::{
    PBT_APMRESUMEAUTOMATIC, PBT_APMRESUMESUSPEND, PBT_APMSUSPEND, WM_KEYDOWN, WM_KEYUP,
    WTS_SESSION_LOCK, WTS_SESSION_UNLOCK,
};

verus! {

/// The codes of rotation cursors start here, one for each degree.
pub const ROTATE_WPARAM_BASE: usize = 1000;

pub const ROTATE_WPARAM_MAX: usize = 1359;

/// The code under which a cursor shape is posted to the window.
pub open spec fn shape_code(shape: CursorShape) -> usize {
    match shape {
        CursorShape::Arrow => 0,
        CursorShape::Move => 1,
        CursorShape::SizeNS => 2,
        CursorShape::SizeWE => 3,
        CursorShape::SizeNESW => 4,
        CursorShape::SizeNWSE => 5,
        CursorShape::Cross => 6,
        CursorShape::Rotate(angle_deg) => (ROTATE_WPARAM_BASE + angle_deg as int % 360) as usize,
    }
}

/// The code under which a cursor shape is posted to the window.
pub fn cursor_shape_to_wparam(shape: CursorShape) -> (r: usize)
    ensures
        r == shape_code(shape),
{
    match shape {
        CursorShape::Arrow => 0,
        CursorShape::Move => 1,
        CursorShape::SizeNS => 2,
        CursorShape::SizeWE => 3,
        CursorShape::SizeNESW => 4,
        CursorShape::SizeNWSE => 5,
        CursorShape::Cross => 6,
        CursorShape::Rotate(angle_deg) => {
            let turn: i32 = match angle_deg.checked_rem_euclid(360) {
                Some(turn) => turn,
                None => 0,
            };
            ROTATE_WPARAM_BASE + turn as usize
        },
    }
}

/// The cursor shape that a code stands for.
pub open spec fn coded_shape(wparam: usize) -> Option<CursorShape> {
    if wparam == 0 {
        Some(CursorShape::Arrow)
    } else if wparam == 1 {
        Some(CursorShape::Move)
    } else if wparam == 2 {
        Some(CursorShape::SizeNS)
    } else if wparam == 3 {
        Some(CursorShape::SizeWE)
    } else if wparam == 4 {
        Some(CursorShape::SizeNESW)
    } else if wparam == 5 {
        Some(CursorShape::SizeNWSE)
    } else if wparam == 6 {
        Some(CursorShape::Cross)
    } else if ROTATE_WPARAM_BASE <= wparam <= ROTATE_WPARAM_MAX {
        Some(CursorShape::Rotate((wparam - ROTATE_WPARAM_BASE) as i32))
    } else {
        None
    }
}

/// The cursor shape that a code stands for.
pub fn cursor_shape_from_wparam(wparam: usize) -> (r: Option<CursorShape>)
    ensures
        r == coded_shape(wparam),
{
    if wparam == 0 {
        Some(CursorShape::Arrow)
    } else if wparam == 1 {
        Some(CursorShape::Move)
    } else if wparam == 2 {
        Some(CursorShape::SizeNS)
    } else if wparam == 3 {
        Some(CursorShape::SizeWE)
    } else if wparam == 4 {
        Some(CursorShape::SizeNESW)
    } else if wparam == 5 {
        Some(CursorShape::SizeNWSE)
    } else if wparam == 6 {
        Some(CursorShape::Cross)
    } else if wparam >= ROTATE_WPARAM_BASE && wparam <= ROTATE_WPARAM_MAX {
        Some(CursorShape::Rotate((wparam - ROTATE_WPARAM_BASE) as i32))
    } else {
        None
    }
}

/// Every shape arrives as it was posted, a rotation by its angle on the circle,
/// and every code that stands for a shape is that shape's own.
pub proof fn posted_shape_arrives(shape: CursorShape, code: usize)
    ensures
        coded_shape(shape_code(shape)) == Some(
            match shape {
                CursorShape::Rotate(angle_deg) => CursorShape::Rotate(
                    (angle_deg as int % 360) as i32,
                ),
                other => other,
            },
        ),
        coded_shape(code) matches Some(s) ==> shape_code(s) == code,
{
}

/// The character that a unit of text completes, and the half that is kept for
/// the next one.
pub open spec fn typed(unit: u16, pending: Option<u16>) -> (Option<char>, Option<u16>) {
    if pending is Some && trailing(unit) {
        (Some(pair(pending->0, unit)), None)
    } else if leading(unit) {
        (None, Some(unit))
    } else if surrogate(unit) {
        (None, None)
    } else {
        (Some(unit as char), None)
    }
}

/// The character that a unit of text completes. Characters beyond the first
/// plane arrive as two halves; the first is kept in `pending`. A half without
/// its other one is dropped.
pub fn char_from_wm_char(unit: u16, pending: &mut Option<u16>) -> (r: Option<char>)
    requires
        *old(pending) matches Some(high) ==> leading(high),
    ensures
        (r, *final(pending)) == typed(unit, *old(pending)),
        *final(pending) matches Some(high) ==> leading(high),
{
    if let Some(high) = pending.take() {
        if unit >= 0xDC00 && unit < 0xE000 {
            let code: u32 = 0x1_0000 + (high as u32 - 0xD800) * 0x400 + (unit as u32 - 0xDC00);
            return char::from_u32(code);
        }
    }
    if unit >= 0xD800 && unit < 0xDC00 {
        *pending = Some(unit);
        return None;
    }
    char::from_u32(unit as u32)
}

/// Text that is sent unit by unit arrives character by character: the units of
/// a character complete that character and nothing else, and nothing is left
/// over.
pub proof fn typed_character_arrives(c: char, pending: Option<u16>)
    ensures
        ({
            let units = crate::utf16::units_of_char(c);
            if units.len() == 1 {
                typed(units[0], pending) == (Some(c), None::<u16>)
            } else {
                &&& units.len() == 2
                &&& typed(units[0], pending) == (None::<char>, Some(units[0]))
                &&& typed(units[1], Some(units[0])) == (Some(c), None::<u16>)
            }
        }),
{
}

/// A character that moves the text around rather than being part of it.
pub open spec fn control(c: char) -> bool {
    c as u32 <= 0x1F || 0x7F <= c as u32 <= 0x9F
}

/// Whether a character moves the text around rather than being part of it.
pub fn is_control(c: char) -> (r: bool)
    ensures
        r == control(c),
{
    let n: u32 = c as u32;
    n <= 0x1F || (n >= 0x7F && n <= 0x9F)
}

/// The bit of a key message that says that the key was down already.
pub const KEY_PREVIOUS_STATE_MASK: isize = 0x4000_0000;

/// What a key message reports: a press, a release, or nothing where a held key
/// merely repeats.
pub open spec fn key_change(msg: u32, lparam: isize) -> Option<bool> {
    if msg == WM_KEYDOWN && lparam & KEY_PREVIOUS_STATE_MASK == 0 {
        Some(true)
    } else if msg == WM_KEYUP {
        Some(false)
    } else {
        None
    }
}

/// What a key message reports: a press, a release, or nothing where a held key
/// merely repeats.
pub fn key_event_press(msg: u32, lparam: isize) -> (r: Option<bool>)
    ensures
        r == key_change(msg, lparam),
{
    if msg == WM_KEYDOWN {
        if lparam & KEY_PREVIOUS_STATE_MASK == 0 {
            Some(true)
        } else {
            None
        }
    } else if msg == WM_KEYUP {
        Some(false)
    } else {
        None
    }
}

/// What a change of the session is reported as.
pub open spec fn session_event(wparam: usize) -> Option<OverlayEvent> {
    if wparam as u32 == WTS_SESSION_LOCK {
        Some(OverlayEvent::SessionLocked)
    } else if wparam as u32 == WTS_SESSION_UNLOCK {
        Some(OverlayEvent::SessionUnlocked)
    } else {
        None
    }
}

/// What a change of the session is reported as. Only locking and unlocking
/// matter.
pub fn session_change_event(wparam: usize) -> (r: Option<OverlayEvent>)
    ensures
        r == session_event(wparam),
{
    let code: u32 = wparam as u32;
    if code == WTS_SESSION_LOCK {
        Some(OverlayEvent::SessionLocked)
    } else if code == WTS_SESSION_UNLOCK {
        Some(OverlayEvent::SessionUnlocked)
    } else {
        None
    }
}

/// What a change of the power state is reported as.
pub open spec fn power_event(wparam: usize) -> Option<OverlayEvent> {
    if wparam as u32 == PBT_APMSUSPEND {
        Some(OverlayEvent::SystemSuspending)
    } else if wparam as u32 == PBT_APMRESUMESUSPEND || wparam as u32 == PBT_APMRESUMEAUTOMATIC {
        Some(OverlayEvent::SystemResumed)
    } else {
        None
    }
}

/// What a change of the power state is reported as. Only going to sleep and
/// waking up matter.
pub fn power_broadcast_event(wparam: usize) -> (r: Option<OverlayEvent>)
    ensures
        r == power_event(wparam),
{
    let code: u32 = wparam as u32;
    if code == PBT_APMSUSPEND {
        Some(OverlayEvent::SystemSuspending)
    } else if code == PBT_APMRESUMESUSPEND || code == PBT_APMRESUMEAUTOMATIC {
        Some(OverlayEvent::SystemResumed)
    } else {
        None
    }
}

} // verus!
