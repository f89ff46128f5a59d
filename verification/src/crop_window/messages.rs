//! What the windows of a piece do for each message.

use vstd::prelude::*;

use crate::crop_window::drag::{DragTracker, DragUpdate};
use crate::crop_window::geometry::{
    dip_to_px, hit_test_strip, is_near, near, resize_hit, spec_dip_to_px, spec_hit_test_strip,
    spec_resize_hit,
};
use crate::crop_window::state::{Command, CropAction, WindowRole, WindowState};
use crate::crop_window::{CropWindowEvent, Point, StripHit};
use crate::model::{Edges, Rect};
use crate::num::{clamp_i32, high_word, larger, low_word, low_words, max_u32, saturating_minus};
use crate::winapi::{
    HTBOTTOMRIGHT, HTCLIENT, HTLEFT, HTTRANSPARENT, MA_NOACTIVATE, SWP_NOZORDER, WM_ACTIVATE,
    WM_CANCELMODE, WM_CAPTURECHANGED, WM_CLOSE, WM_DESTROY, WM_ENTERSIZEMOVE, WM_ERASEBKGND,
    WM_EXITSIZEMOVE, WM_GETMINMAXINFO, WM_LBUTTONDOWN, WM_LBUTTONUP, WM_MOUSEACTIVATE,
    WM_MOUSELEAVE, WM_MOUSEMOVE, WM_NCCALCSIZE, WM_NCDESTROY, WM_NCHITTEST, WM_PAINT, WM_SETCURSOR,
    WM_SIZING, WM_TIMER, WM_WINDOWPOSCHANGED,
};
use crate::window::Reply;

verus! {

/// A command from the rest of the application has arrived.
pub const WM_APP_COMMAND: u32 = 0x8001;

/// The windows are to go, by a decision of the application and not of the
/// person at the screen: nothing is reported.
pub const WM_APP_SHUTDOWN: u32 = 0x8002;

/// The timer that hides the strip a little after the cursor has left.
pub const STRIP_HIDE_TIMER: usize = 1;

/// The least side of a content window.
pub const MIN_SIDE_DIP: u32 = 48;

/// What the system says of the moment in which a message is handled.
#[derive(Debug, Clone, Copy, PartialEq, Eq, Structural)]
pub struct Moment {
    /// The cursor on the screen, where it can be read.
    pub cursor: Option<Point>,
    /// The left button is physically down.
    pub left_down: bool,
    /// The Shift key is physically down.
    pub shift_down: bool,
    /// Size of the client area of the window that the message went to.
    pub client_w: u32,
    pub client_h: u32,
    /// The edges of the content window, where they can be read.
    pub window: Option<Edges>,
    /// The flags of a position change, where the message carries them.
    pub position_flags: Option<u32>,
    /// The command that the message carries.
    pub command: Option<Command>,
}

/// One message to one of the two windows.
#[derive(Debug, Clone, Copy, PartialEq, Eq, Structural)]
pub struct Message {
    pub role: WindowRole,
    pub code: u32,
    pub wparam: usize,
    pub lparam: isize,
}

/// One turn of the state machine.
#[verifier::ext_equal]
pub struct Step {
    pub state: WindowState,
    pub actions: Seq<CropAction>,
    pub reply: Reply,
}

/// What the window procedure does for one message.
#[derive(Debug, PartialEq, Eq)]
pub struct Reaction {
    pub actions: Vec<CropAction>,
    pub reply: Reply,
}

/// Whether a hit code names an edge or a corner of a window.
pub open spec fn is_edge_code(code: u32) -> bool {
    HTLEFT <= code <= HTBOTTOMRIGHT
}

/// The event that reports where a piece is.
pub open spec fn geometry_event(rect: Rect) -> CropWindowEvent {
    CropWindowEvent::Geometry { x: rect.x, y: rect.y, w: rect.w, h: rect.h }
}

fn geometry_of(rect: Rect) -> (r: CropWindowEvent)
    ensures
        r == geometry_event(rect),
{
    CropWindowEvent::Geometry { x: rect.x, y: rect.y, w: rect.w, h: rect.h }
}

/// A turn that only answers.
pub open spec fn answer(state: WindowState, value: int) -> Step {
    Step { state, actions: seq![], reply: Reply::Value(value as isize) }
}

/// A turn with actions that answers zero.
pub open spec fn done(turn: (WindowState, Seq<CropAction>)) -> Step {
    Step { state: turn.0, actions: turn.1, reply: Reply::Value(0) }
}

impl WindowState {
    /// What lies under a point of the screen. On the content window that is an
    /// edge to resize by. On the strip the buttons come first, at its edges the
    /// point is given to the window below, and the rest is the strip's own. A
    /// minimized piece cannot be resized.
    pub open spec fn hit_code(self, m: Message) -> int {
        let x = low_word(m.lparam);
        let y = high_word(m.lparam);
        let strip = self.spec_strip_place();
        match m.role {
            WindowRole::Content => if self.minimized {
                HTCLIENT as int
            } else {
                spec_resize_hit(self.content_rect, self.dpi, x as int, y as int) as int
            },
            WindowRole::Strip => {
                let local = spec_hit_test_strip(
                    strip.w,
                    strip.h,
                    clamp_i32(x - strip.x) as int,
                    clamp_i32(y - strip.y) as int,
                );
                if local is Pin || local is Minimize || local is Close {
                    HTCLIENT as int
                } else if spec_resize_hit(strip, self.dpi, x as int, y as int) != HTCLIENT {
                    HTTRANSPARENT as int
                } else {
                    HTCLIENT as int
                }
            },
        }
    }

    fn on_hit_test(&self, m: Message) -> (r: isize)
        ensures
            r == self.hit_code(m),
    {
        let (x, y) = low_words(m.lparam);
        match m.role {
            WindowRole::Content => {
                if self.minimized {
                    HTCLIENT as isize
                } else {
                    resize_hit(self.content_rect, self.dpi, x, y) as isize
                }
            },
            WindowRole::Strip => {
                let strip = self.strip_place();
                let local = hit_test_strip(
                    strip.w,
                    strip.h,
                    saturating_minus(x, strip.x),
                    saturating_minus(y, strip.y),
                );
                if matches!(local, StripHit::Pin | StripHit::Minimize | StripHit::Close) {
                    HTCLIENT as isize
                } else if resize_hit(strip, self.dpi, x, y) != HTCLIENT {
                    HTTRANSPARENT as isize
                } else {
                    HTCLIENT as isize
                }
            },
        }
    }

    /// The cursor moves over the strip while a drag runs.
    pub open spec fn dragged(self, at: Moment) -> (WindowState, Seq<CropAction>) {
        match at.cursor {
            Some(cursor) => {
                let s = WindowState { drag: self.drag.after_move(cursor, at.left_down), ..self };
                match self.drag.move_update(cursor, at.left_down) {
                    Some(DragUpdate::Moved(p)) => s.moved(p.x, p.y),
                    Some(DragUpdate::Ended(p)) => (
                        s,
                        s.drag_end_actions(Some(DragUpdate::Ended(p)), true),
                    ),
                    None => (s, seq![]),
                }
            },
            None => if at.left_down {
                (self, seq![])
            } else {
                self.drag_finished(true)
            },
        }
    }

    /// The cursor moves over one of the windows.
    pub open spec fn mouse_moved(self, m: Message, at: Moment) -> (WindowState, Seq<CropAction>) {
        if m.role is Strip && self.drag.active {
            let (s, actions) = self.dragged(at);
            (s, actions.push(CropAction::TrackLeave(WindowRole::Strip)))
        } else {
            let hit = spec_hit_test_strip(
                at.client_w,
                at.client_h,
                low_word(m.lparam) as int,
                high_word(m.lparam) as int,
            );
            let s = if m.role is Content {
                WindowState { hover_content: true, ..self }
            } else {
                WindowState { hover_strip: true, hover_button: hit, ..self }
            };
            let redraw: Seq<CropAction> = if m.role is Strip && hit != self.hover_button {
                seq![CropAction::RedrawStrip]
            } else {
                seq![]
            };
            (
                s,
                redraw + seq![CropAction::TrackLeave(m.role), CropAction::KillHideTimer]
                    + s.visibility_actions(),
            )
        }
    }

    fn on_drag(&mut self, at: &Moment, out: &mut Vec<CropAction>)
        ensures
            *final(self) == old(self).dragged(*at).0,
            final(out)@ == old(out)@ + old(self).dragged(*at).1,
    {
        if let Some(cursor) = at.cursor {
            match self.drag.move_cursor(cursor, at.left_down) {
                Some(DragUpdate::Moved(p)) => self.move_windows(p.x, p.y, out),
                Some(DragUpdate::Ended(p)) => self.finish_drag_update(
                    Some(DragUpdate::Ended(p)),
                    true,
                    out,
                ),
                None => {},
            }
        } else if !at.left_down {
            self.finish_drag(true, out);
        }
        assert(out@ =~= old(out)@ + old(self).dragged(*at).1);
    }

    fn on_mouse_move(&mut self, m: Message, at: &Moment, out: &mut Vec<CropAction>)
        ensures
            *final(self) == old(self).mouse_moved(m, *at).0,
            final(out)@ == old(out)@ + old(self).mouse_moved(m, *at).1,
    {
        if m.role == WindowRole::Strip && self.drag.active {
            self.on_drag(at, out);
            out.push(CropAction::TrackLeave(WindowRole::Strip));
            assert(out@ =~= old(out)@ + old(self).mouse_moved(m, *at).1);
            return;
        }
        match m.role {
            WindowRole::Content => {
                self.hover_content = true;
            },
            WindowRole::Strip => {
                self.hover_strip = true;
                let (x, y) = low_words(m.lparam);
                let hit = hit_test_strip(at.client_w, at.client_h, x, y);
                if hit != self.hover_button {
                    self.hover_button = hit;
                    out.push(CropAction::RedrawStrip);
                }
            },
        }
        out.push(CropAction::TrackLeave(m.role));
        out.push(CropAction::KillHideTimer);
        self.update_strip_visibility(out);
        assert(out@ =~= old(out)@ + old(self).mouse_moved(m, *at).1);
    }

    /// The cursor has left one of the windows. The strip is not hidden at once:
    /// the cursor may only be crossing to the other window.
    pub open spec fn mouse_left(self, role: WindowRole) -> (WindowState, Seq<CropAction>) {
        match role {
            WindowRole::Content => (
                WindowState { hover_content: false, ..self },
                seq![CropAction::ArmHideTimer],
            ),
            WindowRole::Strip => (
                WindowState { hover_strip: false, hover_button: StripHit::Nothing, ..self },
                (if self.hover_button != StripHit::Nothing {
                    seq![CropAction::RedrawStrip]
                } else {
                    seq![]
                }).push(CropAction::ArmHideTimer),
            ),
        }
    }

    fn on_mouse_leave(&mut self, role: WindowRole, out: &mut Vec<CropAction>)
        ensures
            *final(self) == old(self).mouse_left(role).0,
            final(out)@ == old(out)@ + old(self).mouse_left(role).1,
    {
        match role {
            WindowRole::Content => {
                self.hover_content = false;
            },
            WindowRole::Strip => {
                self.hover_strip = false;
                if self.hover_button != StripHit::Nothing {
                    self.hover_button = StripHit::Nothing;
                    out.push(CropAction::RedrawStrip);
                }
            },
        }
        out.push(CropAction::ArmHideTimer);
        assert(out@ =~= old(out)@ + old(self).mouse_left(role).1);
    }

    /// The system's own move or resize loop has ended: the strip comes back
    /// over the content, and the outcome is reported once.
    pub open spec fn loop_ended(self) -> (WindowState, Seq<CropAction>) {
        let s = WindowState { in_size_move: false, ..self };
        (
            s,
            seq![CropAction::RaiseStrip] + s.visibility_actions() + seq![
                CropAction::Emit(geometry_event(s.content_rect)),
            ],
        )
    }

    fn on_loop_end(&mut self, out: &mut Vec<CropAction>)
        ensures
            *final(self) == old(self).loop_ended().0,
            final(out)@ == old(out)@ + old(self).loop_ended().1,
    {
        self.in_size_move = false;
        out.push(CropAction::RaiseStrip);
        self.update_strip_visibility(out);
        out.push(CropAction::Emit(geometry_of(self.content_rect)));
        assert(out@ =~= old(out)@ + old(self).loop_ended().1);
    }

    /// A position change says that the stacking order may have changed. Without
    /// flags to read it has to be taken for changed.
    pub open spec fn order_changed(flags: Option<u32>) -> bool {
        match flags {
            Some(f) => f & SWP_NOZORDER != SWP_NOZORDER,
            None => true,
        }
    }

    /// The rectangle that something outside has given the content window: none
    /// while the windows move themselves, and none where it is where it was.
    pub open spec fn moved_from_outside(self, at: Moment) -> Option<Rect> {
        match at.window {
            Some(edges) => if !self.self_move && !self.drag.active && !self.minimized
                && edges.spec_rect() != self.content_rect {
                Some(edges.spec_rect())
            } else {
                None
            },
            None => None,
        }
    }

    /// The windows take up a rectangle that something outside has given the
    /// content window. During a resize by the frame nothing is reported yet.
    pub open spec fn taken_up(self, rect: Rect) -> (WindowState, Seq<CropAction>) {
        let s = WindowState { content_rect: rect, self_move: true, ..self };
        let resized = rect.w != self.content_rect.w || rect.h != self.content_rect.h;
        (
            s,
            seq![
                CropAction::RefreshMetrics,
                CropAction::PlaceStrip,
                CropAction::RaiseStrip,
                CropAction::EndSelfMove,
            ] + (if resized {
                s.sync_actions()
            } else {
                seq![]
            }) + (if self.in_size_move {
                seq![]
            } else {
                seq![CropAction::Emit(geometry_event(rect))]
            }),
        )
    }

    fn take_up(&mut self, rect: Rect, out: &mut Vec<CropAction>)
        ensures
            *final(self) == old(self).taken_up(rect).0,
            final(out)@ == old(out)@ + old(self).taken_up(rect).1,
    {
        let resized = rect.w != self.content_rect.w || rect.h != self.content_rect.h;
        self.content_rect = rect;
        self.self_move = true;
        out.push(CropAction::RefreshMetrics);
        out.push(CropAction::PlaceStrip);
        out.push(CropAction::RaiseStrip);
        out.push(CropAction::EndSelfMove);
        let ghost head = seq![
            CropAction::RefreshMetrics,
            CropAction::PlaceStrip,
            CropAction::RaiseStrip,
            CropAction::EndSelfMove,
        ];
        assert(out@ =~= old(out)@ + head);
        let ghost sync: Seq<CropAction> = if resized {
            self.sync_actions()
        } else {
            seq![]
        };
        if resized {
            self.sync_thumbnail(out);
        }
        assert(out@ =~= old(out)@ + (head + sync));
        if !self.in_size_move {
            out.push(CropAction::Emit(geometry_of(rect)));
        }
        assert(out@ =~= old(out)@ + old(self).taken_up(rect).1);
    }

    /// The content window's place or order has changed.
    pub open spec fn position_changed(self, at: Moment) -> (WindowState, Seq<CropAction>) {
        let raise: Seq<CropAction> = if Self::order_changed(at.position_flags) && !self.minimized {
            seq![CropAction::RaiseStrip]
        } else {
            seq![]
        };
        match self.moved_from_outside(at) {
            Some(rect) => (self.taken_up(rect).0, raise + self.taken_up(rect).1),
            None => (self, raise),
        }
    }

    fn on_position_changed(&mut self, at: &Moment, out: &mut Vec<CropAction>)
        ensures
            *final(self) == old(self).position_changed(*at).0,
            final(out)@ == old(out)@ + old(self).position_changed(*at).1,
    {
        let order_changed = match at.position_flags {
            Some(f) => f & SWP_NOZORDER != SWP_NOZORDER,
            None => true,
        };
        if order_changed && !self.minimized {
            out.push(CropAction::RaiseStrip);
        }
        if !self.self_move && !self.drag.active && !self.minimized {
            if let Some(edges) = at.window {
                let rect = edges.to_rect();
                if rect != self.content_rect {
                    self.take_up(rect, out);
                }
            }
        }
        assert(out@ =~= old(out)@ + old(self).position_changed(*at).1);
    }

    /// The cursor is on the piece or within the margin around it.
    pub open spec fn cursor_near_piece(self, at: Moment) -> bool {
        match at.cursor {
            Some(c) => near(self.content_rect, c) || near(self.spec_strip_place(), c),
            None => false,
        }
    }

    /// The hide timer has run out: it starts over while the cursor is still at
    /// the piece, and else the strip goes.
    pub open spec fn hide_timer_ran(self, at: Moment) -> (WindowState, Seq<CropAction>) {
        if self.cursor_near_piece(at) {
            (self, seq![CropAction::KillHideTimer, CropAction::ArmHideTimer])
        } else {
            let s = WindowState {
                hover_content: false,
                hover_strip: false,
                hover_button: StripHit::Nothing,
                ..self
            };
            (s, seq![CropAction::KillHideTimer] + s.visibility_actions())
        }
    }

    fn on_hide_timer(&mut self, at: &Moment, out: &mut Vec<CropAction>)
        ensures
            *final(self) == old(self).hide_timer_ran(*at).0,
            final(out)@ == old(out)@ + old(self).hide_timer_ran(*at).1,
    {
        out.push(CropAction::KillHideTimer);
        let near_piece = match at.cursor {
            Some(c) => is_near(self.content_rect, c) || is_near(self.strip_place(), c),
            None => false,
        };
        if near_piece {
            out.push(CropAction::ArmHideTimer);
        } else {
            self.hover_content = false;
            self.hover_strip = false;
            self.hover_button = StripHit::Nothing;
            self.update_strip_visibility(out);
        }
        assert(out@ =~= old(out)@ + old(self).hide_timer_ran(*at).1);
    }

    /// The strip is pressed.
    pub open spec fn strip_pressed(self, m: Message, at: Moment) -> (WindowState, Seq<CropAction>) {
        match spec_hit_test_strip(
            at.client_w,
            at.client_h,
            low_word(m.lparam) as int,
            high_word(m.lparam) as int,
        ) {
            StripHit::Close => (self, seq![CropAction::Emit(CropWindowEvent::CloseClicked)]),
            StripHit::Minimize => (self, seq![CropAction::Emit(CropWindowEvent::MinimizeClicked)]),
            StripHit::Pin => {
                let (s, actions) = self.pinned(!self.always_on_top);
                (
                    s,
                    actions.push(
                        CropAction::Emit(
                            CropWindowEvent::AlwaysOnTopToggled(!self.always_on_top),
                        ),
                    ),
                )
            },
            StripHit::Drag => match at.cursor {
                Some(cursor) => {
                    let corner = Point { x: self.content_rect.x, y: self.content_rect.y };
                    let s = WindowState { drag: DragTracker::begun(cursor, corner), ..self };
                    (s, seq![CropAction::CaptureStrip] + s.visibility_actions())
                },
                None => (self, seq![]),
            },
            StripHit::Nothing => (self, seq![]),
        }
    }

    fn on_strip_press(&mut self, m: Message, at: &Moment, out: &mut Vec<CropAction>)
        ensures
            *final(self) == old(self).strip_pressed(m, *at).0,
            final(out)@ == old(out)@ + old(self).strip_pressed(m, *at).1,
    {
        let (x, y) = low_words(m.lparam);
        match hit_test_strip(at.client_w, at.client_h, x, y) {
            StripHit::Close => out.push(CropAction::Emit(CropWindowEvent::CloseClicked)),
            StripHit::Minimize => out.push(CropAction::Emit(CropWindowEvent::MinimizeClicked)),
            StripHit::Pin => {
                let on = !self.always_on_top;
                self.set_always_on_top(on, out);
                out.push(CropAction::Emit(CropWindowEvent::AlwaysOnTopToggled(on)));
            },
            StripHit::Drag => {
                if let Some(cursor) = at.cursor {
                    let corner = Point { x: self.content_rect.x, y: self.content_rect.y };
                    self.drag.begin(cursor, corner);
                    out.push(CropAction::CaptureStrip);
                    self.update_strip_visibility(out);
                }
            },
            StripHit::Nothing => {},
        }
        assert(out@ =~= old(out)@ + old(self).strip_pressed(m, *at).1);
    }

    /// The square of a minimized piece is pressed: the piece goes back to where
    /// it was.
    pub open spec fn square_pressed(self) -> (WindowState, Seq<CropAction>) {
        let s = WindowState { minimized: false, ..self };
        let (t, actions) = s.placed(self.normal_rect);
        (
            t,
            actions.push(CropAction::Emit(CropWindowEvent::RestoreClicked))
                + t.visibility_actions(),
        )
    }

    fn on_square_press(&mut self, out: &mut Vec<CropAction>)
        ensures
            *final(self) == old(self).square_pressed().0,
            final(out)@ == old(out)@ + old(self).square_pressed().1,
    {
        self.minimized = false;
        let bounds = self.normal_rect;
        self.apply_bounds(bounds, out);
        out.push(CropAction::Emit(CropWindowEvent::RestoreClicked));
        self.update_strip_visibility(out);
        assert(out@ =~= old(out)@ + old(self).square_pressed().1);
    }

    /// The system closes one of the windows, as Alt+F4 does. To the person at
    /// the screen that is the close button.
    pub open spec fn closed_by_system(self, role: WindowRole) -> (WindowState, Seq<CropAction>) {
        let (s, actions) = self.drag_finished(true);
        (
            s,
            seq![CropAction::Emit(CropWindowEvent::CloseClicked)] + actions + (match role {
                WindowRole::Content => seq![CropAction::DestroyStrip, CropAction::DestroyContent],
                WindowRole::Strip => seq![CropAction::DestroyStrip],
            }),
        )
    }

    fn on_close(&mut self, role: WindowRole, out: &mut Vec<CropAction>)
        ensures
            *final(self) == old(self).closed_by_system(role).0,
            final(out)@ == old(out)@ + old(self).closed_by_system(role).1,
    {
        out.push(CropAction::Emit(CropWindowEvent::CloseClicked));
        self.finish_drag(true, out);
        out.push(CropAction::DestroyStrip);
        if role == WindowRole::Content {
            out.push(CropAction::DestroyContent);
        }
        assert(out@ =~= old(out)@ + old(self).closed_by_system(role).1);
    }

    /// The application takes the windows down.
    pub open spec fn shut_down(self) -> (WindowState, Seq<CropAction>) {
        let (s, actions) = self.drag_finished(true);
        (s, actions + seq![CropAction::DestroyStrip, CropAction::DestroyContent])
    }

    fn on_shutdown(&mut self, out: &mut Vec<CropAction>)
        ensures
            *final(self) == old(self).shut_down().0,
            final(out)@ == old(out)@ + old(self).shut_down().1,
    {
        self.finish_drag(true, out);
        out.push(CropAction::DestroyStrip);
        out.push(CropAction::DestroyContent);
        assert(out@ =~= old(out)@ + old(self).shut_down().1);
    }

    /// The content window goes.
    pub open spec fn content_destroyed(self) -> (WindowState, Seq<CropAction>) {
        (
            WindowState { thumbnail: None, ..self },
            (match self.thumbnail {
                Some(t) => seq![CropAction::UnregisterThumbnail(t)],
                None => seq![],
            }).push(CropAction::Quit),
        )
    }

    fn on_destroy(&mut self, out: &mut Vec<CropAction>)
        ensures
            *final(self) == old(self).content_destroyed().0,
            final(out)@ == old(out)@ + old(self).content_destroyed().1,
    {
        if let Some(t) = self.thumbnail {
            out.push(CropAction::UnregisterThumbnail(t));
        }
        self.thumbnail = None;
        out.push(CropAction::Quit);
        assert(out@ =~= old(out)@ + old(self).content_destroyed().1);
    }

    /// What a message to the content window alone does.
    pub open spec fn content_step(self, m: Message, at: Moment) -> Option<Step> {
        if m.code == WM_ACTIVATE {
            Some(
                Step {
                    state: self,
                    actions: if m.wparam & 0xFFFF != 0 && self.minimized {
                        seq![CropAction::Emit(CropWindowEvent::RestoreClicked)]
                    } else {
                        seq![]
                    },
                    reply: Reply::System,
                },
            )
        } else if m.code == WM_NCCALCSIZE && m.wparam != 0 {
            Some(answer(self, 0))
        } else if m.code == WM_SIZING {
            Some(
                Step {
                    state: self,
                    actions: match self.spec_aspect() {
                        Some((w, h)) => if at.shift_down {
                            seq![]
                        } else {
                            seq![CropAction::KeepAspect { edge: m.wparam as u32, w, h }]
                        },
                        None => seq![],
                    },
                    reply: Reply::Value(1),
                },
            )
        } else if m.code == WM_GETMINMAXINFO {
            Some(
                Step {
                    state: self,
                    actions: seq![
                        CropAction::LimitSize(
                            spec_dip_to_px(MIN_SIDE_DIP, larger(self.dpi as int, 1) as u32) as i32,
                        ),
                    ],
                    reply: Reply::Value(0),
                },
            )
        } else if m.code == WM_ENTERSIZEMOVE {
            Some(answer(WindowState { in_size_move: true, ..self }, 0))
        } else if m.code == WM_EXITSIZEMOVE {
            Some(done(self.loop_ended()))
        } else if m.code == WM_WINDOWPOSCHANGED {
            Some(Step { reply: Reply::System, ..done(self.position_changed(at)) })
        } else if m.code == WM_LBUTTONDOWN && self.minimized {
            Some(done(self.square_pressed()))
        } else if m.code == WM_ERASEBKGND {
            Some(answer(self, 1))
        } else if m.code == WM_PAINT {
            Some(done((self, seq![CropAction::ValidateContent])))
        } else if m.code == WM_APP_COMMAND {
            Some(
                done(
                    match at.command {
                        Some(c) => self.commanded(c),
                        None => (self, seq![]),
                    },
                ),
            )
        } else if m.code == WM_DESTROY {
            Some(done(self.content_destroyed()))
        } else {
            None
        }
    }

    fn on_content_message(&mut self, m: Message, at: &Moment, out: &mut Vec<CropAction>) -> (r:
        Option<Reply>)
        ensures
            match old(self).content_step(m, *at) {
                Some(step) => *final(self) == step.state && final(out)@ == old(out)@ + step.actions
                    && r == Some(step.reply),
                None => *final(self) == *old(self) && final(out)@ == old(out)@ && r is None,
            },
    {
        let ghost turn = self.content_step(m, *at);
        if m.code == WM_ACTIVATE {
            if m.wparam & 0xFFFF != 0 && self.minimized {
                out.push(CropAction::Emit(CropWindowEvent::RestoreClicked));
            }
            assert(out@ =~= old(out)@ + turn->0.actions);
            return Some(Reply::System);
        }
        if m.code == WM_NCCALCSIZE && m.wparam != 0 {
            assert(out@ =~= old(out)@ + turn->0.actions);
            return Some(Reply::Value(0));
        }
        if m.code == WM_SIZING {
            if !at.shift_down {
                if let Some((w, h)) = self.aspect() {
                    out.push(CropAction::KeepAspect { edge: m.wparam as u32, w, h });
                }
            }
            assert(out@ =~= old(out)@ + turn->0.actions);
            return Some(Reply::Value(1));
        }
        if m.code == WM_GETMINMAXINFO {
            out.push(
                CropAction::LimitSize(dip_to_px(MIN_SIDE_DIP, max_u32(self.dpi, 1)) as i32),
            );
            assert(out@ =~= old(out)@ + turn->0.actions);
            return Some(Reply::Value(0));
        }
        if m.code == WM_ENTERSIZEMOVE {
            self.in_size_move = true;
            assert(out@ =~= old(out)@ + turn->0.actions);
            return Some(Reply::Value(0));
        }
        if m.code == WM_EXITSIZEMOVE {
            self.on_loop_end(out);
            return Some(Reply::Value(0));
        }
        if m.code == WM_WINDOWPOSCHANGED {
            self.on_position_changed(at, out);
            return Some(Reply::System);
        }
        if m.code == WM_LBUTTONDOWN && self.minimized {
            self.on_square_press(out);
            return Some(Reply::Value(0));
        }
        if m.code == WM_ERASEBKGND {
            assert(out@ =~= old(out)@ + turn->0.actions);
            return Some(Reply::Value(1));
        }
        if m.code == WM_PAINT {
            out.push(CropAction::ValidateContent);
            assert(out@ =~= old(out)@ + turn->0.actions);
            return Some(Reply::Value(0));
        }
        if m.code == WM_APP_COMMAND {
            if let Some(c) = at.command {
                self.apply_command(c, out);
            }
            assert(out@ =~= old(out)@ + turn->0.actions);
            return Some(Reply::Value(0));
        }
        if m.code == WM_DESTROY {
            self.on_destroy(out);
            return Some(Reply::Value(0));
        }
        None
    }

    /// What a message to the strip alone does.
    pub open spec fn strip_step(self, m: Message, at: Moment) -> Option<Step> {
        if m.code == WM_LBUTTONDOWN {
            Some(done(self.strip_pressed(m, at)))
        } else if m.code == WM_LBUTTONUP || m.code == WM_CANCELMODE {
            Some(done(self.drag_finished(true)))
        } else if m.code == WM_CAPTURECHANGED {
            Some(done(self.drag_finished(false)))
        } else if m.code == WM_PAINT {
            Some(done((self, seq![CropAction::PaintStrip])))
        } else {
            None
        }
    }

    fn on_strip_message(&mut self, m: Message, at: &Moment, out: &mut Vec<CropAction>) -> (r:
        Option<Reply>)
        ensures
            match old(self).strip_step(m, *at) {
                Some(step) => *final(self) == step.state && final(out)@ == old(out)@ + step.actions
                    && r == Some(step.reply),
                None => *final(self) == *old(self) && final(out)@ == old(out)@ && r is None,
            },
    {
        if m.code == WM_LBUTTONDOWN {
            self.on_strip_press(m, at, out);
        } else if m.code == WM_LBUTTONUP || m.code == WM_CANCELMODE {
            self.finish_drag(true, out);
        } else if m.code == WM_CAPTURECHANGED {
            self.finish_drag(false, out);
        } else if m.code == WM_PAINT {
            out.push(CropAction::PaintStrip);
            assert(out@ =~= old(out)@ + old(self).strip_step(m, *at)->0.actions);
        } else {
            return None;
        }
        Some(Reply::Value(0))
    }

    /// What a message does that both windows treat alike.
    pub open spec fn shared_step(self, m: Message, at: Moment) -> Step {
        if m.code == WM_MOUSEACTIVATE {
            answer(self, MA_NOACTIVATE as int)
        } else if m.code == WM_NCHITTEST {
            answer(self, self.hit_code(m))
        } else if m.code == WM_MOUSEMOVE {
            done(self.mouse_moved(m, at))
        } else if m.code == WM_MOUSELEAVE {
            done(self.mouse_left(m.role))
        } else if m.code == WM_TIMER && m.wparam == STRIP_HIDE_TIMER {
            done(self.hide_timer_ran(at))
        } else if m.code == WM_SETCURSOR && !is_edge_code((m.lparam & 0xFFFF) as u32) {
            Step { state: self, actions: seq![CropAction::ArrowCursor], reply: Reply::Value(1) }
        } else if m.code == WM_CLOSE {
            done(self.closed_by_system(m.role))
        } else if m.code == WM_APP_SHUTDOWN {
            done(self.shut_down())
        } else if m.code == WM_NCDESTROY {
            answer(self, 0)
        } else {
            Step { state: self, actions: seq![], reply: Reply::System }
        }
    }

    /// What one message does.
    pub open spec fn step(self, m: Message, at: Moment) -> Step {
        let own = match m.role {
            WindowRole::Content => self.content_step(m, at),
            WindowRole::Strip => self.strip_step(m, at),
        };
        match own {
            Some(step) => step,
            None => self.shared_step(m, at),
        }
    }

    fn on_shared_message(&mut self, m: Message, at: &Moment, out: &mut Vec<CropAction>) -> (r:
        Reply)
        ensures
            *final(self) == old(self).shared_step(m, *at).state,
            final(out)@ == old(out)@ + old(self).shared_step(m, *at).actions,
            r == old(self).shared_step(m, *at).reply,
    {
        let ghost turn = self.shared_step(m, *at);
        if m.code == WM_MOUSEACTIVATE {
            assert(out@ =~= old(out)@ + turn.actions);
            Reply::Value(MA_NOACTIVATE as isize)
        } else if m.code == WM_NCHITTEST {
            assert(out@ =~= old(out)@ + turn.actions);
            Reply::Value(self.on_hit_test(m))
        } else if m.code == WM_MOUSEMOVE {
            self.on_mouse_move(m, at, out);
            Reply::Value(0)
        } else if m.code == WM_MOUSELEAVE {
            self.on_mouse_leave(m.role, out);
            Reply::Value(0)
        } else if m.code == WM_TIMER && m.wparam == STRIP_HIDE_TIMER {
            self.on_hide_timer(at, out);
            Reply::Value(0)
        } else if m.code == WM_SETCURSOR {
            let code: u32 = (m.lparam & 0xFFFF) as u32;
            if code >= HTLEFT && code <= HTBOTTOMRIGHT {
                assert(out@ =~= old(out)@ + turn.actions);
                return Reply::System;
            }
            out.push(CropAction::ArrowCursor);
            assert(out@ =~= old(out)@ + turn.actions);
            Reply::Value(1)
        } else if m.code == WM_CLOSE {
            self.on_close(m.role, out);
            Reply::Value(0)
        } else if m.code == WM_APP_SHUTDOWN {
            self.on_shutdown(out);
            Reply::Value(0)
        } else if m.code == WM_NCDESTROY {
            assert(out@ =~= old(out)@ + turn.actions);
            Reply::Value(0)
        } else {
            assert(out@ =~= old(out)@ + turn.actions);
            Reply::System
        }
    }

    /// Handle one message.
    pub fn on_message(&mut self, m: Message, at: &Moment) -> (r: Reaction)
        ensures
            *final(self) == old(self).step(m, *at).state,
            r.actions@ == old(self).step(m, *at).actions,
            r.reply == old(self).step(m, *at).reply,
    {
        let ghost turn = self.step(m, *at);
        let mut actions: Vec<CropAction> = Vec::new();
        let own = match m.role {
            WindowRole::Content => self.on_content_message(m, at, &mut actions),
            WindowRole::Strip => self.on_strip_message(m, at, &mut actions),
        };
        let reply = match own {
            Some(reply) => reply,
            None => self.on_shared_message(m, at, &mut actions),
        };
        assert(actions@ =~= turn.actions);
        Reaction { actions, reply }
    }
}

} // verus!
