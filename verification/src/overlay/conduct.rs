//! What an overlay window does for a message, said of the numbers that the
//! message carries.

use vstd::prelude::*;

use crate::input::{CursorShape, InputEvent, Modifiers, MouseCapture, Point};
use crate::num::{
    bits_by_place, low_bits_by_remainder, low_word_by_remainder, packed_point_is_read, signed_word,
};
use crate::overlay::messages::{
    policy_rect, within, Message, Moment, OverlayAction, OverlayModel, Turn,
};
use crate::overlay::{OverlayEvent, OverlayInputPolicy};
use crate::window::Reply;

verus! {

/// Once the mouse is to be taken only in some places (0x8005), each by its
/// corner, its width and its height, a point that is asked for (0x84) is the
/// window's own (1) exactly where one of them has it: from its corner on, to the
/// right for its width and down for its height. Any other point goes to the
/// windows below (-1). The last coordinate that there is lies in no place that
/// would end beyond it.
pub proof fn places_are_taken_by_their_numbers(
    s: OverlayModel,
    given: Message,
    with: Moment,
    rects: Vec<(i32, i32, i32, i32)>,
    asked: Message,
    now: Moment,
    p: Point,
)
    requires
        s.live,
        given.code == 0x8005,
        with.policy == Some(OverlayInputPolicy::HitRects(rects)),
        rects@.len() > 0,
        asked.code == 0x84,
        now.client_point == Some(p),
        (p.x < i32::MAX && p.y < i32::MAX) || forall|i: int|
            0 <= i < rects@.len() ==> (#[trigger] rects@[i]).0 + rects@[i].2 <= i32::MAX
                && rects@[i].1 + rects@[i].3 <= i32::MAX,
    ensures
        (exists|i: int|
            0 <= i < rects@.len() && (#[trigger] rects@[i]).0 <= p.x < rects@[i].0 + rects@[i].2
                && rects@[i].1 <= p.y < rects@[i].1 + rects@[i].3) ==> s.turn(
            given,
            with,
        ).model.turn(asked, now).reply == Reply::Value(1),
        !(exists|i: int|
            0 <= i < rects@.len() && (#[trigger] rects@[i]).0 <= p.x < rects@[i].0 + rects@[i].2
                && rects@[i].1 <= p.y < rects@[i].1 + rects@[i].3) ==> s.turn(
            given,
            with,
        ).model.turn(asked, now).reply == Reply::Value((-1) as isize),
{
    let places = s.turn(given, with).model.hit_rects;
    assert(places.len() == rects@.len());
    assert forall|i: int| 0 <= i < rects@.len() implies #[trigger] places[i] == policy_rect(
        rects@[i],
    ) by {
    }
    if within(places, p) {
        let i = choose|i: int|
            0 <= i < places.len() && (#[trigger] places[i]).left <= p.x < places[i].right
                && places[i].top <= p.y < places[i].bottom;
        assert(places[i] == policy_rect(rects@[i]));
        assert(rects@[i].0 <= p.x < rects@[i].0 + rects@[i].2 && rects@[i].1 <= p.y < rects@[i].1
            + rects@[i].3);
    }
    if exists|i: int|
        0 <= i < rects@.len() && (#[trigger] rects@[i]).0 <= p.x < rects@[i].0 + rects@[i].2
            && rects@[i].1 <= p.y < rects@[i].1 + rects@[i].3 {
        let i = choose|i: int|
            0 <= i < rects@.len() && (#[trigger] rects@[i]).0 <= p.x < rects@[i].0 + rects@[i].2
                && rects@[i].1 <= p.y < rects@[i].1 + rects@[i].3;
        assert(places[i] == policy_rect(rects@[i]));
        assert(within(places, p));
    }
}

/// A hit test (0x84) is the system's own where the window takes the mouse
/// everywhere or nowhere, and changes nothing; a point that cannot be placed goes
/// to the windows below.
pub proof fn hit_test_is_the_systems_without_places(s: OverlayModel, m: Message, now: Moment)
    requires
        m.code == 0x84,
    ensures
        s.turn(m, now).model == s,
        s.turn(m, now).actions == Seq::<OverlayAction>::empty(),
        !s.live || s.hit_rects.len() == 0 ==> s.turn(m, now).reply == Reply::System,
        s.live && s.hit_rects.len() > 0 && now.client_point is None ==> s.turn(m, now).reply
            == Reply::Value((-1) as isize),
{
}

/// What a way of taking the mouse (0x8005) does. Taking it everywhere or on
/// hovering keeps what is held; taking it nowhere or only in places gives it
/// back. Only in places are there places afterwards, one for each that is asked
/// for. The focus is asked for where it is to be taken and nowhere else.
pub proof fn ways_of_taking_the_mouse(
    s: OverlayModel,
    m: Message,
    now: Moment,
    policy: OverlayInputPolicy,
    ex: u32,
)
    requires
        s.live,
        m.code == 0x8005,
        now.policy == Some(policy),
    ensures
        ({
            let after = s.turn(m, now);
            let nowhere = policy is Transparent || (policy matches OverlayInputPolicy::HitRects(
                rects,
            ) && rects@.len() == 0);
            let keeps = policy is Interactive || policy is HoverTarget;
            let focus = policy matches OverlayInputPolicy::Interactive { take_focus } && take_focus;
            let at: int = if keeps {
                0
            } else {
                1
            };
            &&& after.reply == Reply::Value(0)
            &&& after.model == (OverlayModel {
                capture: MouseCapture {
                    captured: s.capture.captured && keeps,
                    last_drag_pos: s.capture.last_drag_pos,
                },
                hit_rects: after.model.hit_rects,
                ..s
            })
            &&& after.model.hit_rects.len() == (match policy {
                OverlayInputPolicy::HitRects(rects) => rects@.len(),
                _ => 0,
            })
            &&& after.actions.len() == at + 1 + (if focus {
                1int
            } else {
                0
            })
            &&& !keeps ==> after.actions[0] == OverlayAction::ReleaseCapture
            &&& focus ==> after.actions[at + 1] == OverlayAction::Focus
            &&& after.actions[at] matches OverlayAction::Style(masks) && {
                let style = masks.applied(ex);
                &&& style & 0x20 == 0x20 <==> nowhere
                &&& style & 0x20 == 0 <==> !nowhere
                &&& style & 0x800_0000 == 0x800_0000 <==> !(policy is Interactive)
                &&& style & 0x800_0000 == 0 <==> policy is Interactive
                &&& style & !0x800_0020u32 == ex & !0x800_0020u32
            }
        }),
{
    let after = s.turn(m, now);
    let effective = crate::overlay::messages::effective_policy(policy);
    crate::overlay::style::policy_decides_its_bits(effective, ex);
    let masks = crate::overlay::style::policy_masks(effective);
    let style = masks.applied(ex);
    assert((style & 0x20 == 0x20 || style & 0x20 == 0) && (style & 0x800_0000 == 0x800_0000 || style
        & 0x800_0000 == 0)) by (bit_vector);
    assert(0x20u32 | 0x800_0000u32 == 0x800_0020u32) by (bit_vector);
    let keeps = policy is Interactive || policy is HoverTarget;
    let at: int = if keeps {
        0
    } else {
        1
    };
    assert(after.actions[at] == OverlayAction::Style(masks));
}

/// A message without a way of taking the mouse (0x8005) changes nothing, and one
/// to a window that is not there changes no more than its style and focus.
pub proof fn no_way_of_taking_the_mouse(s: OverlayModel, m: Message, now: Moment)
    requires
        m.code == 0x8005,
        now.policy is None || !s.live,
    ensures
        s.turn(m, now).model == s,
        s.turn(m, now).reply == Reply::Value(0),
        now.policy is None ==> s.turn(m, now).actions == Seq::<OverlayAction>::empty(),
        !s.turn(m, now).actions.contains(OverlayAction::ReleaseCapture),
{
}

/// The message carries this point in its low word and the word above.
pub open spec fn carries(lparam: isize, x: int, y: int) -> bool {
    &&& -0x8000 <= x < 0x8000
    &&& -0x8000 <= y < 0x8000
    &&& (lparam - x) % 0x1_0000 == 0
    &&& (lparam as int / 0x1_0000 - y) % 0x1_0000 == 0
}

/// A press (0x201) on a window that takes the mouse everywhere takes hold of it
/// and is told with its place and keys: Shift where the bit 4 of the first
/// parameter is set, Ctrl where the bit 8 is, Alt where it is down.
pub proof fn press_takes_the_mouse(s: OverlayModel, m: Message, now: Moment, x: i32, y: i32)
    requires
        s.live,
        s.hit_rects.len() == 0,
        now.ex_style & 0x20 == 0,
        m.code == 0x201,
        carries(m.lparam, x as int, y as int),
    ensures
        s.turn(m, now) == (Turn {
            model: OverlayModel {
                capture: MouseCapture { captured: true, last_drag_pos: Some(Point { x, y }) },
                ..s
            },
            actions: seq![
                OverlayAction::TakeCapture,
                OverlayAction::Emit(
                    OverlayEvent::Input(
                        InputEvent::MouseDown {
                            pos: Point { x, y },
                            modifiers: Modifiers {
                                shift: m.wparam / 4 % 2 == 1,
                                ctrl: m.wparam / 8 % 2 == 1,
                                alt: now.alt_down,
                            },
                        },
                    ),
                ),
            ],
            reply: Reply::Value(0),
        }),
{
    packed_point_is_read(m.lparam, x as int, y as int);
    bits_by_place(m.lparam, m.wparam);
    assert(s.turn(m, now).actions =~= seq![
        OverlayAction::TakeCapture,
        s.turn(m, now).actions[1],
    ]);
}

/// A move (0x200) on a window that takes the mouse everywhere is told with its
/// place and keys: as a drag while the mouse is held and the button is down,
/// though not twice from one place; as a mere move while it is not held. A move
/// while it is held that finds the button up is the release.
pub proof fn move_is_told(s: OverlayModel, m: Message, now: Moment, x: i32, y: i32)
    requires
        s.live,
        s.hit_rects.len() == 0,
        now.ex_style & 0x20 == 0,
        m.code == 0x200,
        carries(m.lparam, x as int, y as int),
    ensures
        ({
            let after = s.turn(m, now);
            let pos = Point { x, y };
            let modifiers = Modifiers {
                shift: m.wparam / 4 % 2 == 1,
                ctrl: m.wparam / 8 % 2 == 1,
                alt: now.alt_down,
            };
            let held = s.capture.captured;
            &&& !held ==> after == (Turn {
                model: OverlayModel {
                    capture: MouseCapture { captured: false, last_drag_pos: None },
                    ..s
                },
                actions: seq![
                    OverlayAction::Emit(
                        OverlayEvent::Input(
                            InputEvent::MouseMove { pos, modifiers, dragging: false },
                        ),
                    ),
                ],
                reply: Reply::Value(0),
            })
            &&& held && now.left_down && s.capture.last_drag_pos != Some(pos) ==> after == (Turn {
                model: OverlayModel {
                    capture: MouseCapture { captured: true, last_drag_pos: Some(pos) },
                    ..s
                },
                actions: seq![
                    OverlayAction::Emit(
                        OverlayEvent::Input(
                            InputEvent::MouseMove { pos, modifiers, dragging: true },
                        ),
                    ),
                ],
                reply: Reply::Value(0),
            })
            &&& held && now.left_down && s.capture.last_drag_pos == Some(pos) ==> after == (Turn {
                model: s,
                actions: seq![],
                reply: Reply::System,
            })
            &&& held && !now.left_down ==> after == (Turn {
                model: OverlayModel {
                    capture: MouseCapture { captured: false, last_drag_pos: None },
                    ..s
                },
                actions: seq![
                    OverlayAction::ReleaseCapture,
                    OverlayAction::Emit(
                        OverlayEvent::Input(InputEvent::MouseUp { pos, modifiers }),
                    ),
                ],
                reply: Reply::Value(0),
            })
        }),
{
    packed_point_is_read(m.lparam, x as int, y as int);
    bits_by_place(m.lparam, m.wparam);
    let after = s.turn(m, now);
    if s.capture.captured && !now.left_down {
        assert(after.actions =~= seq![OverlayAction::ReleaseCapture, after.actions[1]]);
    } else if s.capture.captured && s.capture.last_drag_pos == Some(Point { x, y }) {
        assert(after.actions =~= Seq::<OverlayAction>::empty());
    } else {
        assert(after.actions =~= seq![after.actions[0]]);
    }
}

/// A release (0x202) on a window that takes the mouse everywhere is told, with
/// its place and keys, where the mouse was held, and the mouse is given back; a
/// mouse that something else takes (0x215) is told as lost where it was held.
/// Neither concerns a window that did not hold it.
pub proof fn release_is_told(s: OverlayModel, m: Message, now: Moment, x: i32, y: i32)
    requires
        s.live,
        s.hit_rects.len() == 0,
        now.ex_style & 0x20 == 0,
        m.code == 0x202 || m.code == 0x215,
        carries(m.lparam, x as int, y as int),
    ensures
        ({
            let after = s.turn(m, now);
            let pos = Point { x, y };
            let modifiers = Modifiers {
                shift: m.wparam / 4 % 2 == 1,
                ctrl: m.wparam / 8 % 2 == 1,
                alt: now.alt_down,
            };
            let held = s.capture.captured;
            &&& after.model == (OverlayModel {
                capture: MouseCapture { captured: false, last_drag_pos: None },
                ..s
            })
            &&& !held ==> after.reply == Reply::System && after.actions == Seq::<
                OverlayAction,
            >::empty()
            &&& held ==> after.reply == Reply::Value(0)
            &&& held && m.code == 0x202 ==> after.actions == seq![
                OverlayAction::ReleaseCapture,
                OverlayAction::Emit(OverlayEvent::Input(InputEvent::MouseUp { pos, modifiers })),
            ]
            &&& held && m.code == 0x215 ==> after.actions == seq![
                OverlayAction::Emit(OverlayEvent::Input(InputEvent::CaptureLost)),
            ]
        }),
{
    packed_point_is_read(m.lparam, x as int, y as int);
    bits_by_place(m.lparam, m.wparam);
    let after = s.turn(m, now);
    if s.capture.captured {
        if m.code == 0x202 {
            assert(after.actions =~= seq![OverlayAction::ReleaseCapture, after.actions[1]]);
        } else {
            assert(after.actions =~= seq![after.actions[0]]);
        }
    } else {
        assert(after.actions =~= Seq::<OverlayAction>::empty());
    }
}

/// A window that takes the mouse only in places tells of presses (0x201), moves
/// (0x200) and releases (0x202) there, with their place and without keys, never
/// as a drag, and never takes hold of the mouse.
pub proof fn places_tell_without_holding(s: OverlayModel, m: Message, now: Moment, x: i32, y: i32)
    requires
        s.live,
        s.hit_rects.len() > 0,
        m.code == 0x200 || m.code == 0x201 || m.code == 0x202 || m.code == 0x215,
        carries(m.lparam, x as int, y as int),
    ensures
        ({
            let after = s.turn(m, now);
            let pos = Point { x, y };
            let modifiers = Modifiers { shift: false, ctrl: false, alt: false };
            &&& after.model == s
            &&& m.code == 0x215 ==> after.reply == Reply::System && after.actions == Seq::<
                OverlayAction,
            >::empty()
            &&& m.code != 0x215 ==> after.reply == Reply::Value(0)
            &&& m.code == 0x200 ==> after.actions == seq![
                OverlayAction::Emit(
                    OverlayEvent::Input(InputEvent::MouseMove { pos, modifiers, dragging: false }),
                ),
            ]
            &&& m.code == 0x201 ==> after.actions == seq![
                OverlayAction::Emit(OverlayEvent::Input(InputEvent::MouseDown { pos, modifiers })),
            ]
            &&& m.code == 0x202 ==> after.actions == seq![
                OverlayAction::Emit(OverlayEvent::Input(InputEvent::MouseUp { pos, modifiers })),
            ]
        }),
{
    packed_point_is_read(m.lparam, x as int, y as int);
}

/// The left button does nothing to a window that is not there; one that lets the
/// mouse through gives back what it holds and leaves the message to the system.
pub proof fn mouse_is_let_through(s: OverlayModel, m: Message, now: Moment)
    requires
        m.code == 0x200 || m.code == 0x201 || m.code == 0x202 || m.code == 0x215,
        !s.live || (s.hit_rects.len() == 0 && now.ex_style & 0x20 != 0),
    ensures
        s.turn(m, now).reply == Reply::System,
        s.live && s.capture.captured ==> s.turn(m, now).actions == seq![
            OverlayAction::ReleaseCapture,
        ],
        s.live && s.capture.captured ==> s.turn(m, now).model == (OverlayModel {
            capture: MouseCapture {
                captured: false,
                last_drag_pos: s.capture.last_drag_pos,
            },
            ..s
        }),
        !(s.live && s.capture.captured) ==> s.turn(m, now).model == s && s.turn(m, now).actions
            == Seq::<OverlayAction>::empty(),
{
}

/// The wheel (0x20A) is told by whole notches of 120, forward counting up: what
/// the second word of the first parameter says, with its sign, less what does not
/// make a notch. Less than a notch is not told.
pub proof fn wheel_is_told_by_notches(
    s: OverlayModel,
    m: Message,
    now: Moment,
    turned: int,
    notches: i32,
)
    requires
        m.code == 0x20a,
        -0x8000 <= turned < 0x8000,
        (m.wparam as int / 0x1_0000 - turned) % 0x1_0000 == 0,
        turned >= 0 ==> 120 * notches <= turned < 120 * notches + 120,
        turned <= 0 ==> 120 * notches - 120 < turned <= 120 * notches,
    ensures
        s.turn(m, now).model == s,
        !s.live || now.ex_style & 0x20 != 0 ==> s.turn(m, now).reply == Reply::System && s.turn(
            m,
            now,
        ).actions == Seq::<OverlayAction>::empty(),
        s.live && now.ex_style & 0x20 == 0 ==> s.turn(m, now).reply == Reply::Value(0),
        s.live && now.ex_style & 0x20 == 0 && notches == 0 ==> s.turn(m, now).actions == Seq::<
            OverlayAction,
        >::empty(),
        s.live && now.ex_style & 0x20 == 0 && notches != 0 ==> s.turn(m, now).actions == seq![
            OverlayAction::Emit(OverlayEvent::Input(InputEvent::MouseWheel { notches })),
        ],
{
    bits_by_place(m.lparam, m.wparam);
    let word: u16 = ((m.wparam >> 16usize) & 0xFFFF) as u16;
    signed_word(word);
    let above = m.wparam as int / 0x1_0000;
    assert(word == above % 0x1_0000);
    assert(word as i16 == turned) by {
        let i = above / 0x1_0000;
        let j = (above - turned) / 0x1_0000;
        assert(above == 0x1_0000 * i + word);
        assert(above - turned == 0x1_0000 * j);
    }
    crate::num::dropped_fraction_is_small(turned, 120);
}

/// The cursor is the window's own over its client area (0x20, with one in the
/// low word), and the system's elsewhere.
pub proof fn cursor_is_shown_over_the_client_area(s: OverlayModel, m: Message, now: Moment)
    requires
        m.code == 0x20,
    ensures
        s.turn(m, now).model == s,
        s.live && m.lparam as int % 0x1_0000 == 1 ==> s.turn(m, now).reply == Reply::Value(1)
            && s.turn(m, now).actions == seq![OverlayAction::ShowCursor(s.cursor)],
        !s.live || m.lparam as int % 0x1_0000 != 1 ==> s.turn(m, now).reply == Reply::System
            && s.turn(m, now).actions == Seq::<OverlayAction>::empty(),
{
    low_word_by_remainder(m.lparam);
}

/// The cursor that a code (0x8001) stands for: the arrow, the cross of arrows,
/// the two axes, the two diagonals and the cross from zero to six, a turned arc
/// from a thousand on, one for each degree of the circle.
pub open spec fn shape_under(code: usize) -> Option<CursorShape> {
    if code >= 1000 && code < 1360 {
        Some(CursorShape::Rotate((code - 1000) as i32))
    } else {
        match code {
            0 => Some(CursorShape::Arrow),
            1 => Some(CursorShape::Move),
            2 => Some(CursorShape::SizeNS),
            3 => Some(CursorShape::SizeWE),
            4 => Some(CursorShape::SizeNESW),
            5 => Some(CursorShape::SizeNWSE),
            6 => Some(CursorShape::Cross),
            _ => None,
        }
    }
}

/// Another cursor (0x8001) is shown and kept; the same one, or a code that
/// stands for none, changes nothing.
pub proof fn another_cursor_is_shown(s: OverlayModel, m: Message, now: Moment)
    requires
        m.code == 0x8001,
    ensures
        s.turn(m, now).reply == Reply::Value(0),
        s.live && shape_under(m.wparam) is Some && shape_under(m.wparam)->0 != s.cursor ==> s.turn(
            m,
            now,
        ).model == (OverlayModel { cursor: shape_under(m.wparam)->0, ..s }) && s.turn(
            m,
            now,
        ).actions == seq![OverlayAction::ShowCursor(shape_under(m.wparam)->0)],
        !s.live || shape_under(m.wparam) is None || shape_under(m.wparam) == Some(s.cursor)
            ==> s.turn(m, now).model == s && s.turn(m, now).actions == Seq::<
            OverlayAction,
        >::empty(),
{
}

/// Orders to a window that is there: to give the mouse back (0x8002), to ask for
/// the keys of a video or to give them back (0x8003, by whether the first
/// parameter is zero), to replace the shortcuts (0x8004). One that is not there
/// follows none.
pub proof fn orders_are_followed(s: OverlayModel, m: Message, now: Moment)
    requires
        m.code == 0x8002 || m.code == 0x8003 || m.code == 0x8004,
    ensures
        s.turn(m, now).reply == Reply::Value(0),
        !s.live ==> s.turn(m, now).model == s && s.turn(m, now).actions == Seq::<
            OverlayAction,
        >::empty(),
        s.live && m.code == 0x8002 ==> s.turn(m, now).model == (OverlayModel {
            capture: MouseCapture { captured: false, last_drag_pos: s.capture.last_drag_pos },
            ..s
        }) && s.turn(m, now).actions == seq![OverlayAction::ReleaseCapture],
        s.live && m.code == 0x8003 ==> s.turn(m, now).model == s && s.turn(m, now).actions == seq![
            OverlayAction::MediaHotkeys(m.wparam != 0),
        ],
        s.live && m.code == 0x8004 ==> s.turn(m, now).model == s && s.turn(m, now).actions == seq![
            OverlayAction::ReloadHotkeys,
        ],
{
}

/// What the system tells of itself is passed on. A session that is locked (0x2B1
/// with 7) or unlocked (8) and a machine that goes to sleep (0x218 with 4) or
/// wakes up (7 or 18) are answered with one; every other number is the system's.
pub proof fn system_events_are_passed_on(s: OverlayModel, m: Message, now: Moment)
    requires
        m.code == 0x2b1 || m.code == 0x218,
    ensures
        ({
            let n = m.wparam as int % 0x1_0000_0000;
            let told = |event: OverlayEvent|
                s.turn(m, now) == (Turn {
                    model: s,
                    actions: if s.live {
                        seq![OverlayAction::Emit(event)]
                    } else {
                        seq![]
                    },
                    reply: Reply::Value(1),
                });
            let known = (m.code == 0x2b1 && (n == 7 || n == 8)) || (m.code == 0x218 && (n == 4 || n
                == 7 || n == 18));
            &&& m.code == 0x2b1 && n == 7 ==> told(OverlayEvent::SessionLocked)
            &&& m.code == 0x2b1 && n == 8 ==> told(OverlayEvent::SessionUnlocked)
            &&& m.code == 0x218 && n == 4 ==> told(OverlayEvent::SystemSuspending)
            &&& m.code == 0x218 && (n == 7 || n == 18) ==> told(OverlayEvent::SystemResumed)
            &&& !known ==> s.turn(m, now) == (Turn {
                model: s,
                actions: seq![],
                reply: Reply::System,
            })
        }),
{
    low_bits_by_remainder(m.wparam);
}

/// Another density (0x2E0) and other monitors (0x7E) are passed on as they are,
/// and answered with zero; without a reading they are the system's.
pub proof fn screen_changes_are_passed_on(s: OverlayModel, m: Message, now: Moment)
    requires
        m.code == 0x2e0 || m.code == 0x7e,
    ensures
        s.turn(m, now).model == s,
        m.code == 0x2e0 && now.moved is None ==> s.turn(m, now).reply == Reply::System,
        m.code == 0x7e && now.monitors is None ==> s.turn(m, now).reply == Reply::System,
        m.code == 0x2e0 && now.moved is Some ==> s.turn(m, now).reply == Reply::Value(0),
        m.code == 0x7e && now.monitors is Some ==> s.turn(m, now).reply == Reply::Value(0),
        s.live && m.code == 0x2e0 && now.moved is Some ==> s.turn(m, now).actions == seq![
            OverlayAction::Emit(
                OverlayEvent::DpiChanged { dpi: now.moved->0.dpi, size: now.moved->0.size },
            ),
        ],
        s.live && m.code == 0x7e && now.monitors is Some ==> s.turn(m, now).actions == seq![
            OverlayAction::Emit(OverlayEvent::MonitorsChanged(now.monitors->0)),
        ],
        !s.live || (m.code == 0x2e0 && now.moved is None) || (m.code == 0x7e && now.monitors is None)
            ==> s.turn(m, now).actions == Seq::<OverlayAction>::empty(),
{
}

/// A key that goes down (0x100) is told once, not again while it is held, which
/// the bit 0x40000000 of the second parameter says; one that goes up (0x101) is
/// told always. Escape (27) is done with, every other key goes on to the system.
pub proof fn keys_are_told(s: OverlayModel, m: Message, now: Moment)
    requires
        m.code == 0x100 || m.code == 0x101,
    ensures
        ({
            let after = s.turn(m, now);
            let vk = m.wparam as int % 0x1_0000_0000;
            let repeats = m.lparam as int / 0x4000_0000 % 2 == 1;
            &&& after.model == s
            &&& after.reply == (if vk == 27 {
                Reply::Value(0)
            } else {
                Reply::System
            })
            &&& !s.live || (m.code == 0x100 && repeats) ==> after.actions == Seq::<
                OverlayAction,
            >::empty()
            &&& s.live && (m.code == 0x101 || !repeats) ==> after.actions == seq![
                OverlayAction::Emit(
                    OverlayEvent::Key {
                        vk: vk as u32,
                        modifiers: now.modifiers,
                        pressed: m.code == 0x100,
                    },
                ),
            ]
        }),
{
    bits_by_place(m.lparam, m.wparam);
    low_bits_by_remainder(m.wparam);
}

/// Text (0x102) is told character by character. A unit that is no half of a pair
/// is its own character; a second half behind a first one makes the character of
/// the two; a first half waits; a half alone is dropped. Characters below 0x20
/// and from 0x7F to 0x9F are not told.
pub proof fn characters_are_told(s: OverlayModel, m: Message, now: Moment, unit: u16)
    requires
        s.live,
        m.code == 0x102,
        m.wparam as int % 0x1_0000 == unit,
        s.pending matches Some(first) ==> 0xD800 <= first < 0xDC00,
    ensures
        ({
            let after = s.turn(m, now);
            let none = Seq::<OverlayAction>::empty();
            let ordinary = unit < 0xD800 || unit >= 0xE000;
            let hidden = unit < 0x20 || 0x7F <= unit < 0xA0;
            &&& after.reply == Reply::Value(0)
            &&& after.model == (OverlayModel { pending: after.model.pending, ..s })
            &&& after.model.pending == (if 0xD800 <= unit < 0xDC00 {
                Some(unit)
            } else {
                None
            })
            &&& ordinary && !hidden ==> after.actions == seq![
                OverlayAction::Emit(OverlayEvent::Char(unit as char)),
            ]
            &&& ordinary && hidden ==> after.actions == none
            &&& 0xD800 <= unit < 0xDC00 ==> after.actions == none
            &&& 0xDC00 <= unit < 0xE000 && s.pending is None ==> after.actions == none
            &&& 0xDC00 <= unit < 0xE000 && s.pending is Some ==> after.actions == seq![
                OverlayAction::Emit(
                    OverlayEvent::Char(
                        ((s.pending->0 - 0xD800) * 0x400 + (unit - 0xDC00) + 0x1_0000) as char,
                    ),
                ),
            ]
        }),
{
    low_bits_by_remainder(m.wparam);
}

/// On its timer (0x113, number one) the window comes back to the top where it
/// fights for it, and takes down how the fight stands.
pub proof fn top_is_fought_for_on_the_timer(s: OverlayModel, m: Message, now: Moment)
    requires
        m.code == 0x113,
        m.wparam == 1,
    ensures
        s.turn(m, now).reply == Reply::Value(0),
        !s.live ==> s.turn(m, now).model == s && s.turn(m, now).actions == Seq::<
            OverlayAction,
        >::empty(),
        s.live ==> s.turn(m, now).model == (OverlayModel {
            topmost: s.topmost.after(now.intruder),
            ..s
        }),
        s.live ==> s.turn(m, now).actions == (if s.topmost.fights(now.intruder) {
            seq![OverlayAction::RaiseToTop]
        } else {
            seq![]
        }),
{
}

/// The end of a window: destroyed (0x2) it stops its timer, leaves the session
/// and ends the loop; gone (0x82) it takes its hook and its shortcuts with it and
/// is not there any more.
pub proof fn window_comes_to_its_end(s: OverlayModel, m: Message, now: Moment)
    requires
        m.code == 2 || m.code == 0x82,
    ensures
        m.code == 2 ==> s.turn(m, now) == (Turn {
            model: s,
            actions: seq![
                OverlayAction::StopTopmostTimer,
                OverlayAction::LeaveSession,
                OverlayAction::Quit,
            ],
            reply: Reply::Value(0),
        }),
        m.code == 0x82 ==> s.turn(m, now).model == (OverlayModel { live: false, ..s }) && s.turn(
            m,
            now,
        ).reply == Reply::System,
        m.code == 0x82 && s.live ==> s.turn(m, now).actions == seq![
            OverlayAction::ClearHook,
            OverlayAction::GiveUpHotkeys,
        ],
        m.code == 0x82 && !s.live ==> s.turn(m, now).actions == seq![OverlayAction::ClearHook],
{
}

/// Every other message is the system's: nothing is done about it, and nothing
/// changes.
pub proof fn other_messages_are_the_systems(s: OverlayModel, m: Message, now: Moment)
    requires
        m.code != 0x2 && m.code != 0x20 && m.code != 0x7e && m.code != 0x82 && m.code != 0x84,
        m.code != 0x100 && m.code != 0x101 && m.code != 0x102,
        !(m.code == 0x113 && m.wparam == 1),
        m.code != 0x200 && m.code != 0x201 && m.code != 0x202 && m.code != 0x20a && m.code != 0x215,
        m.code != 0x218 && m.code != 0x2b1 && m.code != 0x2e0,
        !(0x8001 <= m.code <= 0x8005),
    ensures
        s.turn(m, now) == (Turn { model: s, actions: seq![], reply: Reply::System }),
{
}

} // verus!
