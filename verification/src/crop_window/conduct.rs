//! What the windows of a piece do for a message, said of the numbers that the
//! message carries.

use vstd::prelude::*;

use crate::crop_window::drag::DragTracker;
use crate::crop_window::geometry::{
    edges_are_named_by_place, nearness_is_twelve_pixels, pixels_are_nearest, spec_dip_to_px,
    spec_hit_test_strip, strip_is_placed, strip_zones_lie_in_order,
};
use crate::crop_window::messages::{done, Message, Moment};
use crate::crop_window::state::{
    spec_strip_band, Band, Command, CropAction, WindowRole, WindowState,
};
use crate::crop_window::{CropWindowEvent, Point, StripHit};
use crate::model::{Edges, Rect};
use crate::num::{
    high_word, low_bits_by_remainder, low_word, low_word_by_remainder, packed_point_is_read,
    signed_length,
};
use crate::window::Reply;

verus! {

/// A message carries this point: the first coordinate in its low word, the
/// second in the word above.
pub open spec fn carries(lparam: isize, x: int, y: int) -> bool {
    &&& -0x8000 <= x < 0x8000
    &&& -0x8000 <= y < 0x8000
    &&& (lparam - x) % 0x1_0000 == 0
    &&& (lparam as int / 0x1_0000 - y) % 0x1_0000 == 0
}

/// What a press on the strip (0x201) does, by the place that it hits. In the
/// rightmost button it reports close and nothing else, in the button to the left
/// of that minimize and nothing else, and the state stays as it is. In the
/// leftmost button it turns the pin over. Anywhere between it starts a drag from
/// where the piece is.
pub proof fn strip_press_goes_by_place(
    s: WindowState,
    m: Message,
    at: Moment,
    x: int,
    y: int,
    side: int,
)
    requires
        m.role is Strip,
        m.code == 0x201,
        carries(m.lparam, x, y),
        0 <= x < at.client_w <= i32::MAX,
        0 <= y < at.client_h <= i32::MAX,
        0 <= side <= at.client_h,
        4 * side <= at.client_w,
        side + 1 > at.client_h || 4 * (side + 1) > at.client_w,
    ensures
        s.step(m, at).reply == Reply::Value(0),
        side > 0 && x >= at.client_w - side ==> s.step(m, at).state == s && s.step(m, at).actions
            == seq![CropAction::Emit(CropWindowEvent::CloseClicked)],
        side > 0 && at.client_w - 2 * side <= x < at.client_w - side ==> s.step(m, at).state == s
            && s.step(m, at).actions == seq![CropAction::Emit(CropWindowEvent::MinimizeClicked)],
        side > 0 && x < side ==> s.step(m, at).state == (WindowState {
            always_on_top: !s.always_on_top,
            ..s
        }) && s.step(m, at).actions == seq![
            CropAction::RaiseContent(
                if s.always_on_top {
                    Band::Ordinary
                } else {
                    Band::Topmost
                },
            ),
            CropAction::RaiseStrip,
            CropAction::RedrawStrip,
            CropAction::Emit(CropWindowEvent::AlwaysOnTopToggled(!s.always_on_top)),
        ],
        side == 0 || side <= x < at.client_w - 2 * side ==> match at.cursor {
            Some(c) => {
                let after = s.step(m, at).state;
                &&& after == (WindowState { drag: after.drag, ..s })
                &&& after.drag.active
                &&& after.drag.current == (Point { x: s.content_rect.x, y: s.content_rect.y })
                &&& i32::MIN <= c.x - s.content_rect.x <= i32::MAX ==> after.drag.offset.x == c.x
                    - s.content_rect.x
                &&& i32::MIN <= c.y - s.content_rect.y <= i32::MAX ==> after.drag.offset.y == c.y
                    - s.content_rect.y
                &&& s.step(m, at).actions == (if s.minimized {
                    seq![CropAction::CaptureStrip, CropAction::HideStrip]
                } else {
                    seq![CropAction::CaptureStrip, CropAction::ShowStrip, CropAction::RaiseStrip]
                })
            },
            None => s.step(m, at).state == s && s.step(m, at).actions == Seq::<CropAction>::empty(),
        },
{
    packed_point_is_read(m.lparam, x, y);
    strip_zones_lie_in_order(at.client_w, at.client_h, x, y, side);
    strip_press_by_zone(s, m, at, spec_hit_test_strip(at.client_w, at.client_h, x, y));
}

#[verifier::rlimit(40)]
proof fn strip_press_by_zone(s: WindowState, m: Message, at: Moment, zone: StripHit)
    requires
        m.role is Strip,
        m.code == 0x201,
        zone == spec_hit_test_strip(
            at.client_w,
            at.client_h,
            low_word(m.lparam) as int,
            high_word(m.lparam) as int,
        ),
    ensures
        s.step(m, at).reply == Reply::Value(0),
        zone is Close ==> s.step(m, at).state == s && s.step(m, at).actions == seq![
            CropAction::Emit(CropWindowEvent::CloseClicked),
        ],
        zone is Minimize ==> s.step(m, at).state == s && s.step(m, at).actions == seq![
            CropAction::Emit(CropWindowEvent::MinimizeClicked),
        ],
        zone is Pin ==> s.step(m, at).state == (WindowState {
            always_on_top: !s.always_on_top,
            ..s
        }) && s.step(m, at).actions == seq![
            CropAction::RaiseContent(
                if s.always_on_top {
                    Band::Ordinary
                } else {
                    Band::Topmost
                },
            ),
            CropAction::RaiseStrip,
            CropAction::RedrawStrip,
            CropAction::Emit(CropWindowEvent::AlwaysOnTopToggled(!s.always_on_top)),
        ],
        zone is Drag ==> match at.cursor {
            Some(c) => {
                let after = s.step(m, at).state;
                &&& after == (WindowState { drag: after.drag, ..s })
                &&& after.drag.active
                &&& after.drag.current == (Point { x: s.content_rect.x, y: s.content_rect.y })
                &&& i32::MIN <= c.x - s.content_rect.x <= i32::MAX ==> after.drag.offset.x == c.x
                    - s.content_rect.x
                &&& i32::MIN <= c.y - s.content_rect.y <= i32::MAX ==> after.drag.offset.y == c.y
                    - s.content_rect.y
                &&& s.step(m, at).actions == (if s.minimized {
                    seq![CropAction::CaptureStrip, CropAction::HideStrip]
                } else {
                    seq![CropAction::CaptureStrip, CropAction::ShowStrip, CropAction::RaiseStrip]
                })
            },
            None => s.step(m, at).state == s && s.step(m, at).actions == Seq::<CropAction>::empty(),
        },
{
    let actions = s.step(m, at).actions;
    if zone is Pin {
        assert(actions =~= seq![
            CropAction::RaiseContent(
                if s.always_on_top {
                    Band::Ordinary
                } else {
                    Band::Topmost
                },
            ),
            CropAction::RaiseStrip,
            CropAction::RedrawStrip,
            CropAction::Emit(CropWindowEvent::AlwaysOnTopToggled(!s.always_on_top)),
        ]);
    }
    if zone is Drag && at.cursor is Some {
        if s.minimized {
            assert(actions =~= seq![CropAction::CaptureStrip, CropAction::HideStrip]);
        } else {
            assert(actions =~= seq![
                CropAction::CaptureStrip,
                CropAction::ShowStrip,
                CropAction::RaiseStrip,
            ]);
        }
    }
}

/// A press outside the strip does nothing.
pub proof fn press_beside_the_strip_is_nothing(
    s: WindowState,
    m: Message,
    at: Moment,
    x: int,
    y: int,
)
    requires
        m.role is Strip,
        m.code == 0x201,
        carries(m.lparam, x, y),
        at.client_w <= i32::MAX,
        at.client_h <= i32::MAX,
        !(0 <= x < at.client_w && 0 <= y < at.client_h),
    ensures
        s.step(m, at).state == s,
        s.step(m, at).actions == Seq::<CropAction>::empty(),
        s.step(m, at).reply == Reply::Value(0),
{
    packed_point_is_read(m.lparam, x, y);
    signed_length(at.client_w);
    signed_length(at.client_h);
}

/// The strip is up exactly while the piece is not minimized and a drag runs or
/// the cursor is on one of the two windows; it is never brought up without being
/// raised.
pub proof fn strip_is_up_with_the_cursor(s: WindowState)
    ensures
        !s.minimized && (s.drag.active || s.hover_content || s.hover_strip)
            ==> s.visibility_actions() == seq![CropAction::ShowStrip, CropAction::RaiseStrip],
        s.minimized || !(s.drag.active || s.hover_content || s.hover_strip)
            ==> s.visibility_actions() == seq![CropAction::HideStrip],
{
}

/// While a drag runs, a move of the mouse over the strip (0x200) with the button
/// down takes the piece along: the cursor keeps its distance from the corner,
/// and the size stays.
pub proof fn drag_moves_the_piece_with_the_cursor(s: WindowState, m: Message, at: Moment, c: Point)
    requires
        m.role is Strip,
        m.code == 0x200,
        s.drag.active,
        at.left_down,
        at.cursor == Some(c),
        i32::MIN <= c.x - s.drag.offset.x <= i32::MAX,
        i32::MIN <= c.y - s.drag.offset.y <= i32::MAX,
    ensures
        ({
            let x = (c.x - s.drag.offset.x) as i32;
            let y = (c.y - s.drag.offset.y) as i32;
            &&& s.step(m, at).state == (WindowState {
                content_rect: Rect { x, y, w: s.content_rect.w, h: s.content_rect.h },
                drag: DragTracker { active: true, offset: s.drag.offset, current: Point { x, y } },
                self_move: true,
                ..s
            })
            &&& s.step(m, at).actions == seq![
                CropAction::MoveContent { x, y },
                CropAction::RefreshMetrics,
                CropAction::MoveStrip,
                CropAction::RaiseStrip,
                CropAction::EndSelfMove,
                CropAction::TrackLeave(WindowRole::Strip),
            ]
            &&& s.step(m, at).reply == Reply::Value(0)
        }),
{
    let x = (c.x - s.drag.offset.x) as i32;
    let y = (c.y - s.drag.offset.y) as i32;
    assert(s.step(m, at).actions =~= seq![
        CropAction::MoveContent { x, y },
        CropAction::RefreshMetrics,
        CropAction::MoveStrip,
        CropAction::RaiseStrip,
        CropAction::EndSelfMove,
        CropAction::TrackLeave(WindowRole::Strip),
    ]);
}

/// A drag without a cursor to read goes on as it is; a move of the mouse that
/// finds the button up ends it, and reports where the piece is.
pub proof fn drag_ends_with_the_button(s: WindowState, m: Message, at: Moment)
    requires
        m.role is Strip,
        m.code == 0x200,
        s.drag.active,
    ensures
        at.left_down && at.cursor is None ==> s.step(m, at).state == s && s.step(m, at).actions
            == seq![CropAction::TrackLeave(WindowRole::Strip)],
        !at.left_down ==> {
            let up = !s.minimized && (s.hover_content || s.hover_strip);
            &&& s.step(m, at).state == (WindowState {
                drag: DragTracker {
                    active: false,
                    offset: s.drag.offset,
                    current: s.drag.current,
                },
                ..s
            })
            &&& s.step(m, at).actions == seq![
                CropAction::Emit(
                    CropWindowEvent::Geometry {
                        x: s.drag.current.x,
                        y: s.drag.current.y,
                        w: s.content_rect.w,
                        h: s.content_rect.h,
                    },
                ),
                CropAction::ReleaseCapture,
            ] + (if up {
                seq![CropAction::ShowStrip, CropAction::RaiseStrip]
            } else {
                seq![CropAction::HideStrip]
            }) + seq![CropAction::TrackLeave(WindowRole::Strip)]
        },
{
    let actions = s.step(m, at).actions;
    if at.left_down && at.cursor is None {
        assert(actions =~= seq![CropAction::TrackLeave(WindowRole::Strip)]);
    }
    if !at.left_down {
        let up = !s.minimized && (s.hover_content || s.hover_strip);
        assert(actions =~= seq![
            CropAction::Emit(
                CropWindowEvent::Geometry {
                    x: s.drag.current.x,
                    y: s.drag.current.y,
                    w: s.content_rect.w,
                    h: s.content_rect.h,
                },
            ),
            CropAction::ReleaseCapture,
        ] + (if up {
            seq![CropAction::ShowStrip, CropAction::RaiseStrip]
        } else {
            seq![CropAction::HideStrip]
        }) + seq![CropAction::TrackLeave(WindowRole::Strip)]);
    }
}

/// A release over the strip (0x202), a mode that the system breaks off (0x1F)
/// and a mouse that something else has taken (0x215) end a drag: where the piece
/// is gets reported, once and only if there was a drag, and the mouse is given
/// back unless it is gone already.
pub proof fn release_ends_the_drag(s: WindowState, m: Message, at: Moment)
    requires
        m.role is Strip,
        m.code == 0x202 || m.code == 0x1f || m.code == 0x215,
    ensures
        s.step(m, at).state == (WindowState {
            drag: DragTracker { active: false, offset: s.drag.offset, current: s.drag.current },
            ..s
        }),
        s.step(m, at).actions == (if s.drag.active {
            seq![
                CropAction::Emit(
                    CropWindowEvent::Geometry {
                        x: s.drag.current.x,
                        y: s.drag.current.y,
                        w: s.content_rect.w,
                        h: s.content_rect.h,
                    },
                ),
            ]
        } else {
            seq![]
        }) + (if m.code == 0x215 {
            seq![]
        } else {
            seq![CropAction::ReleaseCapture]
        }) + (if !s.minimized && (s.hover_content || s.hover_strip) {
            seq![CropAction::ShowStrip, CropAction::RaiseStrip]
        } else {
            seq![CropAction::HideStrip]
        }),
        s.step(m, at).reply == Reply::Value(0),
{
}

/// Once the cursor is on a window (0x200), outside a drag, the strip stays or
/// comes up, the hide timer stops, and the button under the cursor is drawn as
/// such, anew only where it is another one.
pub proof fn cursor_on_a_window_brings_the_strip(
    s: WindowState,
    m: Message,
    at: Moment,
    x: int,
    y: int,
    side: int,
)
    requires
        m.code == 0x200,
        m.role is Content || !s.drag.active,
        carries(m.lparam, x, y),
        at.client_w <= i32::MAX,
        at.client_h <= i32::MAX,
        0 <= side <= at.client_h,
        4 * side <= at.client_w,
        side + 1 > at.client_h || 4 * (side + 1) > at.client_w,
    ensures
        ({
            let after = s.step(m, at).state;
            let on = 0 <= x < at.client_w && 0 <= y < at.client_h;
            let up = if s.minimized {
                seq![CropAction::HideStrip]
            } else {
                seq![CropAction::ShowStrip, CropAction::RaiseStrip]
            };
            &&& s.step(m, at).reply == Reply::Value(0)
            &&& m.role is Content ==> after == (WindowState { hover_content: true, ..s })
            &&& m.role is Content ==> s.step(m, at).actions == seq![
                CropAction::TrackLeave(WindowRole::Content),
                CropAction::KillHideTimer,
            ] + up
            &&& m.role is Strip ==> after == (WindowState {
                hover_strip: true,
                hover_button: after.hover_button,
                ..s
            })
            &&& m.role is Strip ==> (after.hover_button is Close <==> on && side > 0 && x
                >= at.client_w - side)
            &&& m.role is Strip ==> (after.hover_button is Minimize <==> on && side > 0
                && at.client_w - 2 * side <= x < at.client_w - side)
            &&& m.role is Strip ==> (after.hover_button is Pin <==> on && side > 0 && x < side)
            &&& m.role is Strip ==> (after.hover_button is Nothing <==> !on)
            &&& m.role is Strip ==> s.step(m, at).actions == (if after.hover_button
                == s.hover_button {
                seq![]
            } else {
                seq![CropAction::RedrawStrip]
            }) + seq![CropAction::TrackLeave(WindowRole::Strip), CropAction::KillHideTimer] + up
        }),
{
    packed_point_is_read(m.lparam, x, y);
    strip_zones_lie_in_order(at.client_w, at.client_h, x, y, side);
    cursor_on_zone(s, m, at, spec_hit_test_strip(at.client_w, at.client_h, x, y));
}

#[verifier::rlimit(40)]
proof fn cursor_on_zone(s: WindowState, m: Message, at: Moment, zone: StripHit)
    requires
        m.code == 0x200,
        m.role is Content || !s.drag.active,
        zone == spec_hit_test_strip(
            at.client_w,
            at.client_h,
            low_word(m.lparam) as int,
            high_word(m.lparam) as int,
        ),
    ensures
        ({
            let up = if s.minimized {
                seq![CropAction::HideStrip]
            } else {
                seq![CropAction::ShowStrip, CropAction::RaiseStrip]
            };
            &&& s.step(m, at).reply == Reply::Value(0)
            &&& m.role is Content ==> s.step(m, at).state == (WindowState {
                hover_content: true,
                ..s
            })
            &&& m.role is Content ==> s.step(m, at).actions == seq![
                CropAction::TrackLeave(WindowRole::Content),
                CropAction::KillHideTimer,
            ] + up
            &&& m.role is Strip ==> s.step(m, at).state == (WindowState {
                hover_strip: true,
                hover_button: zone,
                ..s
            })
            &&& m.role is Strip ==> s.step(m, at).actions == (if zone == s.hover_button {
                seq![]
            } else {
                seq![CropAction::RedrawStrip]
            }) + seq![CropAction::TrackLeave(WindowRole::Strip), CropAction::KillHideTimer] + up
        }),
{
    assert(s.step(m, at) == done(s.mouse_moved(m, at)));
    let after = s.mouse_moved(m, at).0;
    let up = if s.minimized {
        seq![CropAction::HideStrip]
    } else {
        seq![CropAction::ShowStrip, CropAction::RaiseStrip]
    };
    assert(after.visibility_actions() == up);
    let tail = seq![CropAction::TrackLeave(m.role), CropAction::KillHideTimer];
    if m.role is Content {
        let none: Seq<CropAction> = seq![];
        assert(s.mouse_moved(m, at).1 == none + tail + up);
        assert(none + tail + up =~= tail + up);
    }
}

/// Once the cursor has left a window (0x2A3), that window counts as left, and the
/// timer that hides the strip starts.
pub proof fn cursor_that_leaves_starts_the_timer(s: WindowState, m: Message, at: Moment)
    requires
        m.code == 0x2a3,
    ensures
        s.step(m, at).reply == Reply::Value(0),
        m.role is Content ==> s.step(m, at).state == (WindowState { hover_content: false, ..s })
            && s.step(m, at).actions == seq![CropAction::ArmHideTimer],
        m.role is Strip ==> s.step(m, at).state == (WindowState {
            hover_strip: false,
            hover_button: StripHit::Nothing,
            ..s
        }),
        m.role is Strip && s.hover_button is Nothing ==> s.step(m, at).actions == seq![
            CropAction::ArmHideTimer,
        ],
        m.role is Strip && !(s.hover_button is Nothing) ==> s.step(m, at).actions == seq![
            CropAction::RedrawStrip,
            CropAction::ArmHideTimer,
        ],
{
    if m.role is Strip {
        if s.hover_button is Nothing {
            assert(s.step(m, at).actions =~= seq![CropAction::ArmHideTimer]);
        } else {
            assert(s.step(m, at).actions =~= seq![
                CropAction::RedrawStrip,
                CropAction::ArmHideTimer,
            ]);
        }
    }
}

/// When the hide timer (0x113, number one) runs out, it starts over while the
/// cursor is within twelve pixels of the content or of the strip, and else the
/// cursor counts as away and the strip goes with it.
pub proof fn timer_waits_for_the_cursor(s: WindowState, m: Message, at: Moment, near: bool)
    requires
        m.code == 0x113,
        m.wparam == 1,
        s.content_rect.w <= i32::MAX,
        s.content_rect.h <= i32::MAX,
        near == (at.cursor matches Some(c) && {
            let r = s.content_rect;
            let t = s.spec_strip_place();
            (r.x - 12 <= c.x < r.x + r.w + 12 && r.y - 12 <= c.y < r.y + r.h + 12) || (t.x - 12
                <= c.x < t.x + t.w + 12 && t.y - 12 <= c.y < t.y + t.h + 12)
        }),
    ensures
        s.step(m, at).reply == Reply::Value(0),
        near ==> s.step(m, at).state == s && s.step(m, at).actions == seq![
            CropAction::KillHideTimer,
            CropAction::ArmHideTimer,
        ],
        !near ==> s.step(m, at).state == (WindowState {
            hover_content: false,
            hover_strip: false,
            hover_button: StripHit::Nothing,
            ..s
        }),
        !near && s.drag.active && !s.minimized ==> s.step(m, at).actions == seq![
            CropAction::KillHideTimer,
            CropAction::ShowStrip,
            CropAction::RaiseStrip,
        ],
        !near && !(s.drag.active && !s.minimized) ==> s.step(m, at).actions == seq![
            CropAction::KillHideTimer,
            CropAction::HideStrip,
        ],
{
    strip_is_placed(s.content_rect, s.screen_top, s.dpi);
    if let Some(c) = at.cursor {
        nearness_is_twelve_pixels(s.content_rect, c);
        nearness_is_twelve_pixels(s.spec_strip_place(), c);
    }
    timer_by_nearness(s, m, at, near);
}

#[verifier::rlimit(40)]
proof fn timer_by_nearness(s: WindowState, m: Message, at: Moment, near: bool)
    requires
        m.code == 0x113,
        m.wparam == 1,
        near == s.cursor_near_piece(at),
    ensures
        s.step(m, at).reply == Reply::Value(0),
        near ==> s.step(m, at).state == s && s.step(m, at).actions == seq![
            CropAction::KillHideTimer,
            CropAction::ArmHideTimer,
        ],
        !near ==> s.step(m, at).state == (WindowState {
            hover_content: false,
            hover_strip: false,
            hover_button: StripHit::Nothing,
            ..s
        }),
        !near && s.drag.active && !s.minimized ==> s.step(m, at).actions == seq![
            CropAction::KillHideTimer,
            CropAction::ShowStrip,
            CropAction::RaiseStrip,
        ],
        !near && !(s.drag.active && !s.minimized) ==> s.step(m, at).actions == seq![
            CropAction::KillHideTimer,
            CropAction::HideStrip,
        ],
{
    if !near {
        if s.drag.active && !s.minimized {
            assert(s.step(m, at).actions =~= seq![
                CropAction::KillHideTimer,
                CropAction::ShowStrip,
                CropAction::RaiseStrip,
            ]);
        } else {
            assert(s.step(m, at).actions =~= seq![
                CropAction::KillHideTimer,
                CropAction::HideStrip,
            ]);
        }
    }
}

/// Where a point of the screen lies on the content (0x84): a piece that is not
/// minimized can be taken by its sides and corners, each with its own code; a
/// minimized one is all client area.
pub proof fn content_is_taken_by_its_edges(
    s: WindowState,
    m: Message,
    at: Moment,
    x: int,
    y: int,
    band: int,
)
    requires
        m.role is Content,
        m.code == 0x84,
        carries(m.lparam, x, y),
        s.content_rect.w <= i32::MAX,
        s.content_rect.h <= i32::MAX,
        band >= 1,
        6 * (if s.dpi == 0 {
            1int
        } else {
            s.dpi as int
        }) < 96 * band + 48,
        band == 1 || 96 * band - 48 <= 6 * s.dpi,
    ensures
        s.step(m, at).state == s,
        s.step(m, at).actions == Seq::<CropAction>::empty(),
        s.minimized ==> s.step(m, at).reply == Reply::Value(1),
        !s.minimized ==> {
            let rect = s.content_rect;
            let on = rect.x <= x < rect.x + rect.w && rect.y <= y < rect.y + rect.h;
            let left = x - rect.x < band;
            let right = !left && rect.x + rect.w - x <= band;
            let top = y - rect.y < band;
            let bottom = !top && rect.y + rect.h - y <= band;
            s.step(m, at).reply == Reply::Value(
                if !on {
                    1
                } else if top {
                    if left {
                        13
                    } else if right {
                        14
                    } else {
                        12
                    }
                } else if bottom {
                    if left {
                        16
                    } else if right {
                        17
                    } else {
                        15
                    }
                } else if left {
                    10
                } else if right {
                    11
                } else {
                    1
                },
            )
        },
{
    packed_point_is_read(m.lparam, x, y);
    edges_are_named_by_place(s.content_rect, s.dpi, x, y, band);
}

/// Where a point of the screen lies on the strip (0x84): its three buttons are
/// its own to the very edge; elsewhere the band along its edges is given to the
/// window below, which is resized by it, and the rest is the strip's.
pub proof fn strip_leaves_its_edges_to_the_content(
    s: WindowState,
    m: Message,
    at: Moment,
    x: int,
    y: int,
    band: int,
    side: int,
)
    requires
        m.role is Strip,
        m.code == 0x84,
        carries(m.lparam, x, y),
        s.content_rect.w <= i32::MAX,
        band >= 1,
        6 * (if s.dpi == 0 {
            1int
        } else {
            s.dpi as int
        }) < 96 * band + 48,
        band == 1 || 96 * band - 48 <= 6 * s.dpi,
        0 <= side <= s.spec_strip_place().h,
        4 * side <= s.content_rect.w,
        side + 1 > s.spec_strip_place().h || 4 * (side + 1) > s.content_rect.w,
    ensures
        s.step(m, at).state == s,
        s.step(m, at).actions == Seq::<CropAction>::empty(),
        ({
            let rect = s.spec_strip_place();
            let on = rect.x <= x < rect.x + rect.w && rect.y <= y < rect.y + rect.h;
            let button = side > 0 && (x - rect.x < side || rect.x + rect.w - x <= 2 * side);
            let edge = x - rect.x < band || rect.x + rect.w - x <= band || y - rect.y < band
                || rect.y + rect.h - y <= band;
            s.step(m, at).reply == Reply::Value(
                if on && !button && edge {
                    (-1) as isize
                } else {
                    1
                },
            )
        }),
{
    packed_point_is_read(m.lparam, x, y);
    strip_is_placed(s.content_rect, s.screen_top, s.dpi);
    let rect = s.spec_strip_place();
    edges_are_named_by_place(rect, s.dpi, x, y, band);
    let dx = crate::num::clamp_i32(x - rect.x) as int;
    let dy = crate::num::clamp_i32(y - rect.y) as int;
    strip_zones_lie_in_order(rect.w, rect.h, dx, dy, side);
    let on = rect.x <= x < rect.x + rect.w && rect.y <= y < rect.y + rect.h;
    assert(on ==> dx == x - rect.x && dy == y - rect.y);
    signed_length(rect.w);
    signed_length(rect.h);
}

/// The preview fills the content window from its corner to its size, and shows
/// the piece of the source from the piece's corner to its size, as opaque as the
/// piece is; without a preview there is nothing to bring up to date.
pub proof fn preview_shows_the_piece(s: WindowState, thumbnail: isize)
    ensures
        s.thumbnail is None ==> s.sync_actions() == Seq::<CropAction>::empty(),
        s.thumbnail == Some(thumbnail) ==> {
            let r = s.content_rect;
            let from = s.source_rect;
            let update = s.thumbnail_update(thumbnail);
            &&& s.sync_actions() == seq![CropAction::UpdateThumbnail(update)]
            &&& update.thumbnail == thumbnail
            &&& update.opacity == s.opacity
            &&& update.destination.left == 0 && update.destination.top == 0
            &&& r.w <= i32::MAX ==> update.destination.right == r.w
            &&& r.h <= i32::MAX ==> update.destination.bottom == r.h
            &&& update.source.left == from.x && update.source.top == from.y
            &&& from.w <= i32::MAX && from.x + from.w <= i32::MAX ==> update.source.right == from.x
                + from.w
            &&& from.h <= i32::MAX && from.y + from.h <= i32::MAX ==> update.source.bottom
                == from.y + from.h
        },
{
}

/// A preview that the system registers is kept and drawn; where the system
/// refuses, the source is reported gone, the first time and never again.
pub proof fn refused_preview_is_reported_once(s: WindowState, thumbnail: isize)
    ensures
        s.registered(Some(thumbnail)).0 == (WindowState { thumbnail: Some(thumbnail), ..s }),
        s.registered(Some(thumbnail)).1 == (WindowState {
            thumbnail: Some(thumbnail),
            ..s
        }).sync_actions(),
        s.registered(None).0 == (WindowState { source_gone_sent: true, ..s }),
        !s.source_gone_sent ==> s.registered(None).1 == seq![
            CropAction::Emit(CropWindowEvent::SourceGone),
        ],
        s.registered(None).0.registered(None).1 == Seq::<CropAction>::empty(),
{
}

/// The strip belongs to the band that the content is in: the one above all
/// windows where the bit 8 of its style is set.
pub proof fn strip_goes_with_the_content(style: u32)
    ensures
        spec_strip_band(style) is Topmost <==> style & 8 == 8,
        spec_strip_band(style) is Ordinary <==> style & 8 == 0,
{
    assert(style & 8 == 0 || style & 8 == 8) by (bit_vector);
}

/// A minimized piece that is activated (0x6, with a low word that is not zero)
/// asks to be restored, and nothing else comes of being activated.
pub proof fn activation_asks_for_restoring(s: WindowState, m: Message, at: Moment)
    requires
        m.role is Content,
        m.code == 6,
    ensures
        s.step(m, at).state == s,
        s.step(m, at).reply == Reply::System,
        s.minimized && m.wparam as int % 0x1_0000 != 0 ==> s.step(m, at).actions == seq![
            CropAction::Emit(CropWindowEvent::RestoreClicked),
        ],
        !s.minimized || m.wparam as int % 0x1_0000 == 0 ==> s.step(m, at).actions == Seq::<
            CropAction,
        >::empty(),
{
    let w = m.wparam;
    assert(w & 0xFFFF == w % 0x1_0000) by (bit_vector);
}

/// A resize by hand (0x214) holds the piece's proportion, width to height, along
/// the edge that is pulled, unless Shift is held or the piece has no extent.
pub proof fn resize_holds_the_proportion(s: WindowState, m: Message, at: Moment)
    requires
        m.role is Content,
        m.code == 0x214,
    ensures
        s.step(m, at).state == s,
        s.step(m, at).reply == Reply::Value(1),
        at.shift_down || s.source_rect.w == 0 || s.source_rect.h == 0 ==> s.step(m, at).actions
            == Seq::<CropAction>::empty(),
        !at.shift_down && s.source_rect.w > 0 && s.source_rect.h > 0 ==> s.step(m, at).actions
            == seq![
            CropAction::KeepAspect {
                edge: (m.wparam as int % 0x1_0000_0000) as u32,
                w: s.source_rect.w,
                h: s.source_rect.h,
            },
        ],
{
    low_bits_by_remainder(m.wparam);
}

/// A resize may not go below forty-eight device independent pixels (0x24).
pub proof fn resize_stops_at_the_least_side(s: WindowState, m: Message, at: Moment, side: int)
    requires
        m.role is Content,
        m.code == 0x24,
        side >= 1,
        48 * (if s.dpi == 0 {
            1int
        } else {
            s.dpi as int
        }) < 96 * side + 48,
        96 * side - 48 <= 48 * (if s.dpi == 0 {
            1int
        } else {
            s.dpi as int
        }),
        side <= i32::MAX,
    ensures
        s.step(m, at).state == s,
        s.step(m, at).reply == Reply::Value(0),
        s.step(m, at).actions == seq![CropAction::LimitSize(side as i32)],
{
    let d: u32 = if s.dpi == 0 {
        1
    } else {
        s.dpi
    };
    pixels_are_nearest(48, d);
    signed_length(side as u32);
}

/// The system's own loop of moving and resizing begins (0x231) without a word
/// and ends (0x232) with one report of where the piece then is.
pub proof fn system_loop_is_reported_at_its_end(s: WindowState, m: Message, at: Moment)
    requires
        m.role is Content,
        m.code == 0x231 || m.code == 0x232,
    ensures
        s.step(m, at).reply == Reply::Value(0),
        s.step(m, at).state == (WindowState { in_size_move: m.code == 0x231, ..s }),
        m.code == 0x231 ==> s.step(m, at).actions == Seq::<CropAction>::empty(),
        m.code == 0x232 ==> s.step(m, at).actions == seq![CropAction::RaiseStrip] + (if !s.minimized
            && (s.drag.active || s.hover_content || s.hover_strip) {
            seq![CropAction::ShowStrip, CropAction::RaiseStrip]
        } else {
            seq![CropAction::HideStrip]
        }) + seq![
            CropAction::Emit(
                CropWindowEvent::Geometry {
                    x: s.content_rect.x,
                    y: s.content_rect.y,
                    w: s.content_rect.w,
                    h: s.content_rect.h,
                },
            ),
        ],
{
}

/// A change of the content's place (0x47) that comes from outside is taken up:
/// the piece is where its edges now are, the strip follows, the preview is drawn
/// anew where the size is another, and the new place is reported unless the
/// system's loop will do so. A change that the windows made themselves, or that
/// is none, and any change of a minimized piece is not. In any case the strip is
/// raised where the order may have changed.
#[verifier::rlimit(40)]
pub proof fn outside_move_is_taken_up(s: WindowState, m: Message, at: Moment, e: Edges)
    requires
        m.role is Content,
        m.code == 0x47,
        at.window == Some(e),
        e.left <= e.right,
        e.top <= e.bottom,
    ensures
        ({
            let after = s.step(m, at).state;
            let actions = s.step(m, at).actions;
            let r = s.content_rect;
            let same = e.left == r.x && e.top == r.y && e.right - e.left == r.w && e.bottom - e.top
                == r.h;
            let resized = e.right - e.left != r.w || e.bottom - e.top != r.h;
            let raise: Seq<CropAction> = if s.minimized || (at.position_flags matches Some(f) && f
                & 4 == 4) {
                seq![]
            } else {
                seq![CropAction::RaiseStrip]
            };
            &&& s.step(m, at).reply == Reply::System
            &&& same || s.self_move || s.drag.active || s.minimized ==> after == s && actions
                == raise
            &&& !(same || s.self_move || s.drag.active || s.minimized) ==> {
                &&& after == (WindowState {
                    content_rect: after.content_rect,
                    self_move: true,
                    ..s
                })
                &&& after.content_rect.x == e.left
                &&& after.content_rect.y == e.top
                &&& after.content_rect.w == e.right - e.left
                &&& after.content_rect.h == e.bottom - e.top
                &&& actions == raise + seq![
                    CropAction::RefreshMetrics,
                    CropAction::PlaceStrip,
                    CropAction::RaiseStrip,
                    CropAction::EndSelfMove,
                ] + (if resized {
                    after.sync_actions()
                } else {
                    seq![]
                }) + (if s.in_size_move {
                    seq![]
                } else {
                    seq![
                        CropAction::Emit(
                            CropWindowEvent::Geometry {
                                x: e.left,
                                y: e.top,
                                w: (e.right - e.left) as u32,
                                h: (e.bottom - e.top) as u32,
                            },
                        ),
                    ]
                })
            }
        }),
{
    let r = s.content_rect;
    let after = s.step(m, at).state;
    let actions = s.step(m, at).actions;
    let same = e.left == r.x && e.top == r.y && e.right - e.left == r.w && e.bottom - e.top == r.h;
    let resized = e.right - e.left != r.w || e.bottom - e.top != r.h;
    assert(same <==> e.spec_rect() == r);
    let raise: Seq<CropAction> = if s.minimized || (at.position_flags matches Some(f) && f & 4
        == 4) {
        seq![]
    } else {
        seq![CropAction::RaiseStrip]
    };
    if same || s.self_move || s.drag.active || s.minimized {
        assert(actions =~= raise);
    } else {
        assert(actions =~= raise + seq![
            CropAction::RefreshMetrics,
            CropAction::PlaceStrip,
            CropAction::RaiseStrip,
            CropAction::EndSelfMove,
        ] + (if resized {
            after.sync_actions()
        } else {
            seq![]
        }) + (if s.in_size_move {
            seq![]
        } else {
            seq![
                CropAction::Emit(
                    CropWindowEvent::Geometry {
                        x: e.left,
                        y: e.top,
                        w: (e.right - e.left) as u32,
                        h: (e.bottom - e.top) as u32,
                    },
                ),
            ]
        }));
    }
}

/// A window whose edges cannot be read has not moved.
pub proof fn unread_edges_are_no_move(s: WindowState, m: Message, at: Moment)
    requires
        m.role is Content,
        m.code == 0x47,
        at.window is None,
    ensures
        s.step(m, at).state == s,
        s.step(m, at).reply == Reply::System,
        s.step(m, at).actions == (if s.minimized || (at.position_flags matches Some(f) && f & 4
            == 4) {
            seq![]
        } else {
            seq![CropAction::RaiseStrip]
        }),
{
}

/// What placing the windows does: the content gets the bounds, the monitor is
/// read, the strip follows and is raised, and the preview is drawn.
pub proof fn placing_sets_both_windows(s: WindowState, b: Rect)
    requires
        b.w <= i32::MAX,
        b.h <= i32::MAX,
    ensures
        s.placed(b).0 == (WindowState { content_rect: b, self_move: true, ..s }),
        s.placed(b).1 == seq![
            CropAction::PlaceContent { x: b.x, y: b.y, w: b.w as i32, h: b.h as i32 },
            CropAction::RefreshMetrics,
            CropAction::PlaceStrip,
            CropAction::RaiseStrip,
            CropAction::EndSelfMove,
        ] + s.placed(b).0.sync_actions(),
{
}

/// A press on the square of a minimized piece (0x201) puts the piece back where
/// it was before, and reports that it was restored; on a piece that is not
/// minimized the content leaves the press to the system.
pub proof fn pressed_square_goes_back(s: WindowState, m: Message, at: Moment)
    requires
        m.role is Content,
        m.code == 0x201,
    ensures
        !s.minimized ==> s.step(m, at).state == s && s.step(m, at).actions == Seq::<
            CropAction,
        >::empty() && s.step(m, at).reply == Reply::System,
        s.minimized ==> {
            let b = s.normal_rect;
            let placed = (WindowState { minimized: false, ..s }).placed(b);
            &&& s.step(m, at).reply == Reply::Value(0)
            &&& s.step(m, at).state == (WindowState {
                minimized: false,
                content_rect: b,
                self_move: true,
                ..s
            })
            &&& s.step(m, at).actions == placed.1 + seq![
                CropAction::Emit(CropWindowEvent::RestoreClicked),
            ] + (if s.drag.active || s.hover_content || s.hover_strip {
                seq![CropAction::ShowStrip, CropAction::RaiseStrip]
            } else {
                seq![CropAction::HideStrip]
            })
        },
{
    if s.minimized {
        let b = s.normal_rect;
        let placed = (WindowState { minimized: false, ..s }).placed(b);
        assert(s.step(m, at).actions =~= placed.1 + seq![
            CropAction::Emit(CropWindowEvent::RestoreClicked),
        ] + (if s.drag.active || s.hover_content || s.hover_strip {
            seq![CropAction::ShowStrip, CropAction::RaiseStrip]
        } else {
            seq![CropAction::HideStrip]
        }));
    }
}

/// A command (0x8001) is carried out. Another opacity is taken up and drawn;
/// another pin raises the content into its band and the strip after it.
pub proof fn opacity_and_pin_are_commanded(
    s: WindowState,
    m: Message,
    at: Moment,
    opacity: u8,
    on: bool,
)
    requires
        m.role is Content,
        m.code == 0x8001,
    ensures
        s.step(m, at).reply == Reply::Value(0),
        at.command is None ==> s.step(m, at).state == s && s.step(m, at).actions == Seq::<
            CropAction,
        >::empty(),
        at.command == Some(Command::SetOpacity(opacity)) ==> s.step(m, at).state == (WindowState {
            opacity,
            ..s
        }) && s.step(m, at).actions == s.step(m, at).state.sync_actions(),
        at.command == Some(Command::SetAlwaysOnTop(on)) ==> s.step(m, at).state == (WindowState {
            always_on_top: on,
            ..s
        }) && s.step(m, at).actions == (if s.always_on_top == on {
            seq![]
        } else {
            seq![
                CropAction::RaiseContent(
                    if on {
                        Band::Topmost
                    } else {
                        Band::Ordinary
                    },
                ),
                CropAction::RaiseStrip,
                CropAction::RedrawStrip,
            ]
        }),
{
}

/// Commanded bounds (0x8001) are where the piece goes at once, or where it will
/// be restored to while it is minimized.
pub proof fn bounds_are_commanded(s: WindowState, m: Message, at: Moment, b: Rect)
    requires
        m.role is Content,
        m.code == 0x8001,
        at.command == Some(Command::SetBounds(b)),
    ensures
        s.minimized ==> s.step(m, at).state == (WindowState { normal_rect: b, ..s }) && s.step(
            m,
            at,
        ).actions == Seq::<CropAction>::empty(),
        !s.minimized ==> s.step(m, at).state == (WindowState {
            normal_rect: b,
            content_rect: b,
            self_move: true,
            ..s
        }) && s.step(m, at).actions == (WindowState { normal_rect: b, ..s }).placed(b).1,
{
}

/// A piece that is told to restore itself (0x8001) goes to the bounds it is
/// given, keeps them for later, and shows no strip until the cursor comes.
pub proof fn restoring_is_commanded(s: WindowState, m: Message, at: Moment, b: Rect)
    requires
        m.role is Content,
        m.code == 0x8001,
        at.command == Some(Command::Restore(b)),
    ensures
        s.step(m, at).state == (WindowState {
            minimized: false,
            normal_rect: b,
            content_rect: b,
            self_move: true,
            hover_content: false,
            hover_strip: false,
            ..s
        }),
        s.step(m, at).actions == (WindowState { minimized: false, normal_rect: b, ..s }).placed(b).1
            + (if s.drag.active {
            seq![CropAction::ShowStrip, CropAction::RaiseStrip]
        } else {
            seq![CropAction::HideStrip]
        }),
{
}

/// A piece that is told to minimize itself (0x8001) becomes a square of
/// thirty-two device independent pixels at the point it is given, remembers where
/// it was unless it was minimized already, and has no strip.
pub proof fn minimizing_is_commanded(s: WindowState, m: Message, at: Moment, p: Point, side: u32)
    requires
        m.role is Content,
        m.code == 0x8001,
        at.command == Some(Command::Minimize(p)),
        side >= 1,
        32 * (if s.dpi == 0 {
            1int
        } else {
            s.dpi as int
        }) < 96 * side + 48,
        side == 1 || 96 * side - 48 <= 32 * s.dpi,
    ensures
        ({
            let square = Rect { x: p.x, y: p.y, w: side, h: side };
            let kept = if s.minimized {
                s.normal_rect
            } else {
                s.content_rect
            };
            &&& s.step(m, at).reply == Reply::Value(0)
            &&& s.step(m, at).state == (WindowState {
                minimized: true,
                normal_rect: kept,
                content_rect: square,
                self_move: true,
                ..s
            })
            &&& s.step(m, at).actions == (WindowState {
                minimized: true,
                normal_rect: kept,
                ..s
            }).placed(square).1 + seq![CropAction::HideStrip]
        }),
{
    let d: u32 = if s.dpi == 0 {
        1
    } else {
        s.dpi
    };
    pixels_are_nearest(32, d);
    shrunk_to_side(s, p, d, side);
}

proof fn shrunk_to_side(s: WindowState, p: Point, d: u32, side: u32)
    requires
        d == (if s.dpi == 0 {
            1
        } else {
            s.dpi
        }),
        side == spec_dip_to_px(32, d),
    ensures
        ({
            let square = Rect { x: p.x, y: p.y, w: side, h: side };
            let kept = if s.minimized {
                s.normal_rect
            } else {
                s.content_rect
            };
            &&& s.shrunk(p).0 == (WindowState {
                minimized: true,
                normal_rect: kept,
                content_rect: square,
                self_move: true,
                ..s
            })
            &&& s.shrunk(p).1 == (WindowState {
                minimized: true,
                normal_rect: kept,
                ..s
            }).placed(square).1 + seq![CropAction::HideStrip]
        }),
{
}

/// A close that the system asks for (0x10) is reported before anything else and
/// takes the windows down: both from the content, the strip alone from the
/// strip. A shutdown (0x8002) takes both down and reports no close. Either ends a
/// drag first.
#[verifier::rlimit(40)]
pub proof fn windows_are_taken_down(s: WindowState, m: Message, at: Moment)
    requires
        m.code == 0x10 || m.code == 0x8002,
    ensures
        s.step(m, at).reply == Reply::Value(0),
        s.step(m, at).state == (WindowState {
            drag: DragTracker { active: false, offset: s.drag.offset, current: s.drag.current },
            ..s
        }),
        ({
            let closing: Seq<CropAction> = if m.code == 0x10 {
                seq![CropAction::Emit(CropWindowEvent::CloseClicked)]
            } else {
                seq![]
            };
            let ended: Seq<CropAction> = if s.drag.active {
                seq![
                    CropAction::Emit(
                        CropWindowEvent::Geometry {
                            x: s.drag.current.x,
                            y: s.drag.current.y,
                            w: s.content_rect.w,
                            h: s.content_rect.h,
                        },
                    ),
                    CropAction::ReleaseCapture,
                ]
            } else {
                seq![CropAction::ReleaseCapture]
            };
            let shown: Seq<CropAction> = if !s.minimized && (s.hover_content || s.hover_strip) {
                seq![CropAction::ShowStrip, CropAction::RaiseStrip]
            } else {
                seq![CropAction::HideStrip]
            };
            let down: Seq<CropAction> = if m.code == 0x10 && m.role is Strip {
                seq![CropAction::DestroyStrip]
            } else {
                seq![CropAction::DestroyStrip, CropAction::DestroyContent]
            };
            s.step(m, at).actions == closing + ended + shown + down
        }),
{
    let closing: Seq<CropAction> = if m.code == 0x10 {
        seq![CropAction::Emit(CropWindowEvent::CloseClicked)]
    } else {
        seq![]
    };
    let ended: Seq<CropAction> = if s.drag.active {
        seq![
            CropAction::Emit(
                CropWindowEvent::Geometry {
                    x: s.drag.current.x,
                    y: s.drag.current.y,
                    w: s.content_rect.w,
                    h: s.content_rect.h,
                },
            ),
            CropAction::ReleaseCapture,
        ]
    } else {
        seq![CropAction::ReleaseCapture]
    };
    let shown: Seq<CropAction> = if !s.minimized && (s.hover_content || s.hover_strip) {
        seq![CropAction::ShowStrip, CropAction::RaiseStrip]
    } else {
        seq![CropAction::HideStrip]
    };
    let down: Seq<CropAction> = if m.code == 0x10 && m.role is Strip {
        seq![CropAction::DestroyStrip]
    } else {
        seq![CropAction::DestroyStrip, CropAction::DestroyContent]
    };
    let after = s.step(m, at);
    if m.code == 0x10 {
        assert(after == done(s.closed_by_system(m.role)));
    } else {
        assert(after == done(s.shut_down()));
    }
    finished_drag(s, ended, shown);
    joined(closing, ended, shown, down);
    if m.code == 0x10 {
        assert(after.actions == closing + (ended + shown) + down);
    } else {
        assert(after.actions == (ended + shown) + down);
    }
}

proof fn joined(
    a: Seq<CropAction>,
    b: Seq<CropAction>,
    c: Seq<CropAction>,
    d: Seq<CropAction>,
)
    ensures
        a + (b + c) + d == a + b + c + d,
        a.len() == 0 ==> (b + c) + d == a + b + c + d,
{
    assert(a + (b + c) + d =~= a + b + c + d);
    if a.len() == 0 {
        assert((b + c) + d =~= a + b + c + d);
    }
}

proof fn finished_drag(s: WindowState, ended: Seq<CropAction>, shown: Seq<CropAction>)
    requires
        ended == (if s.drag.active {
            seq![
                CropAction::Emit(
                    CropWindowEvent::Geometry {
                        x: s.drag.current.x,
                        y: s.drag.current.y,
                        w: s.content_rect.w,
                        h: s.content_rect.h,
                    },
                ),
                CropAction::ReleaseCapture,
            ]
        } else {
            seq![CropAction::ReleaseCapture]
        }),
        shown == (if !s.minimized && (s.hover_content || s.hover_strip) {
            seq![CropAction::ShowStrip, CropAction::RaiseStrip]
        } else {
            seq![CropAction::HideStrip]
        }),
    ensures
        s.drag_finished(true).1 == ended + shown,
{
    let actions = s.drag_finished(true).1;
    if s.drag.active {
        assert(actions =~= ended + shown);
    } else {
        assert(actions =~= ended + shown);
    }
}

/// With the content window (0x2) the preview goes, and the message loop ends; a
/// strip that goes ends nothing.
pub proof fn content_takes_the_loop_with_it(s: WindowState, m: Message, at: Moment)
    requires
        m.code == 2,
    ensures
        m.role is Strip ==> s.step(m, at).state == s && s.step(m, at).actions == Seq::<
            CropAction,
        >::empty() && s.step(m, at).reply == Reply::System,
        m.role is Content ==> s.step(m, at).state == (WindowState { thumbnail: None, ..s })
            && s.step(m, at).reply == Reply::Value(0),
        m.role is Content ==> s.step(m, at).actions == match s.thumbnail {
            Some(t) => seq![CropAction::UnregisterThumbnail(t), CropAction::Quit],
            None => seq![CropAction::Quit],
        },
{
    if m.role is Content {
        assert(s.step(m, at).actions =~= match s.thumbnail {
            Some(t) => seq![CropAction::UnregisterThumbnail(t), CropAction::Quit],
            None => seq![CropAction::Quit],
        });
    }
}

/// Messages that change nothing: a press never activates a window (0x21), the
/// content has no frame of its own (0x83) and needs no background (0x14), each
/// window is painted (0xF), the last message of a window is done with (0x82), and
/// the arrow is shown unless the cursor is on an edge, whose codes are 10 to 17
/// (0x20).
pub proof fn plain_messages_are_answered(s: WindowState, m: Message, at: Moment)
    requires
        m.code == 0x21 || m.code == 0x14 || m.code == 0xf || m.code == 0x82 || m.code == 0x20 || (
        m.code == 0x83 && m.wparam != 0),
    ensures
        s.step(m, at).state == s,
        m.code == 0x21 ==> s.step(m, at).reply == Reply::Value(3),
        m.code == 0x14 && m.role is Content ==> s.step(m, at).reply == Reply::Value(1),
        m.code == 0x14 && m.role is Strip ==> s.step(m, at).reply == Reply::System,
        m.code == 0x83 && m.role is Content ==> s.step(m, at).reply == Reply::Value(0),
        m.code == 0x83 && m.role is Strip ==> s.step(m, at).reply == Reply::System,
        m.code == 0xf || m.code == 0x82 ==> s.step(m, at).reply == Reply::Value(0),
        m.code == 0xf ==> s.step(m, at).actions == (if m.role is Content {
            seq![CropAction::ValidateContent]
        } else {
            seq![CropAction::PaintStrip]
        }),
        m.code == 0x20 && 10 <= m.lparam as int % 0x1_0000 <= 17 ==> s.step(m, at).reply
            == Reply::System && s.step(m, at).actions == Seq::<CropAction>::empty(),
        m.code == 0x20 && !(10 <= m.lparam as int % 0x1_0000 <= 17) ==> s.step(m, at).reply
            == Reply::Value(1) && s.step(m, at).actions == seq![CropAction::ArrowCursor],
        m.code != 0xf && m.code != 0x20 ==> s.step(m, at).actions == Seq::<CropAction>::empty(),
{
    low_word_by_remainder(m.lparam);
}

/// Every other message is the system's: nothing is done about it, and nothing
/// changes.
pub proof fn other_messages_are_the_systems(s: WindowState, m: Message, at: Moment)
    requires
        m.code != 0x2 && m.code != 0xf && m.code != 0x10 && m.code != 0x20 && m.code != 0x21,
        m.code != 0x82 && m.code != 0x84 && m.code != 0x200 && m.code != 0x201 && m.code != 0x2a3,
        m.code != 0x8002,
        !(m.code == 0x113 && m.wparam == 1),
        m.role is Strip ==> m.code != 0x1f && m.code != 0x202 && m.code != 0x215,
        m.role is Content ==> m.code != 0x6 && m.code != 0x14 && m.code != 0x24 && m.code != 0x47
            && m.code != 0x214 && m.code != 0x231 && m.code != 0x232 && m.code != 0x8001 && !(m.code
            == 0x83 && m.wparam != 0),
    ensures
        s.step(m, at).state == s,
        s.step(m, at).actions == Seq::<CropAction>::empty(),
        s.step(m, at).reply == Reply::System,
{
}

/// A reading of the monitor moves the top of the screen where it could be read and
/// the density where it is not zero, and nothing else; a second reading of the same
/// changes nothing.
pub proof fn monitor_reading_is_taken(s: WindowState, top: i32, dpi: u32)
    ensures
        s.measured(Some(top), dpi).screen_top == top,
        s.measured(None, dpi).screen_top == s.screen_top,
        dpi > 0 ==> s.measured(Some(top), dpi).dpi == dpi && s.measured(None, dpi).dpi == dpi,
        s.measured(Some(top), 0).dpi == s.dpi,
        s.measured(None, 0) == s,
        s.measured(Some(top), dpi) == (WindowState {
            screen_top: top,
            dpi: s.measured(Some(top), dpi).dpi,
            ..s
        }),
        s.measured(Some(top), dpi).measured(Some(top), dpi) == s.measured(Some(top), dpi),
{
}

/// A source that is gone is told the first time and never again.
pub proof fn gone_source_is_told_once(s: WindowState)
    ensures
        !s.source_gone_sent ==> s.gone_event() == Some(CropWindowEvent::SourceGone),
        (WindowState { source_gone_sent: true, ..s }).gone_event() is None,
{
}

/// While a drag runs, the piece goes where its distance from the cursor puts it,
/// and stays at the end of the range of coordinates where that lies beyond.
pub proof fn drag_stops_at_the_ends(s: WindowState, m: Message, at: Moment, c: Point)
    requires
        m.role is Strip,
        m.code == 0x200,
        s.drag.active,
        at.left_down,
        at.cursor == Some(c),
    ensures
        ({
            let after = s.step(m, at).state;
            &&& c.x - s.drag.offset.x > i32::MAX ==> after.content_rect.x == i32::MAX
            &&& c.x - s.drag.offset.x < i32::MIN ==> after.content_rect.x == i32::MIN
            &&& c.y - s.drag.offset.y > i32::MAX ==> after.content_rect.y == i32::MAX
            &&& c.y - s.drag.offset.y < i32::MIN ==> after.content_rect.y == i32::MIN
            &&& after.drag.current == (Point { x: after.content_rect.x, y: after.content_rect.y })
        }),
{
}

/// A side of the preview that does not fit a coordinate is held at the last one.
pub proof fn preview_is_held_at_the_last_coordinate(s: WindowState, thumbnail: isize)
    ensures
        ({
            let r = s.content_rect;
            let from = s.source_rect;
            let update = s.thumbnail_update(thumbnail);
            &&& r.w > i32::MAX ==> update.destination.right == i32::MAX
            &&& r.h > i32::MAX ==> update.destination.bottom == i32::MAX
            &&& from.x >= 0 && from.x + from.w > i32::MAX ==> update.source.right == i32::MAX
            &&& from.y >= 0 && from.y + from.h > i32::MAX ==> update.source.bottom == i32::MAX
        }),
{
}

} // verus!
