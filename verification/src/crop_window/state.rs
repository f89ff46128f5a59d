//! The two windows of a piece as a state machine: a message and what the
//! system says of the moment go in, a new state and a list of actions come out.
//!
//! The actions are carried out in order. While they are, the system may hand
//! the windows further messages; each is answered from the state that is
//! already in place.

use vstd::prelude::*;

use crate::crop_window::drag::{DragTracker, DragUpdate};
use crate::crop_window::geometry::{
    dimensions, dip_to_px, spec_dimensions, spec_dip_to_px, spec_strip_rect, strip_rect,
};
use crate::crop_window::{CropWindowEvent, Point, SourceRect, StripHit};
use crate::model::{Edges, Rect};
use crate::num::{
    as_coordinate, clamp_i32, larger, length_as_coordinate, max_u32, saturating_plus,
};
use crate::winapi::WS_EX_TOPMOST;

verus! {

/// How long the strip stays after the cursor has left.
pub const STRIP_HIDE_DELAY_MS: u32 = 320;

/// The side of a minimized piece.
pub const MINIMIZED_SIDE_DIP: u32 = 32;

/// Which of the two windows a message went to.
#[derive(Debug, Clone, Copy, PartialEq, Eq, Structural)]
pub enum WindowRole {
    Content,
    Strip,
}

/// What the application may ask of a piece's windows.
#[derive(Debug, Clone, Copy, PartialEq, Eq, Structural)]
pub enum Command {
    SetOpacity(u8),
    SetBounds(Rect),
    Minimize(Point),
    Restore(Rect),
    SetAlwaysOnTop(bool),
}

/// One of the two bands that the system stacks windows in.
#[derive(Debug, Clone, Copy, PartialEq, Eq, Structural)]
pub enum Band {
    /// Above all ordinary windows.
    Topmost,
    Ordinary,
}

/// How the live preview is to be drawn.
#[derive(Debug, Clone, Copy, PartialEq, Eq, Structural)]
pub struct ThumbnailUpdate {
    pub thumbnail: isize,
    /// The part of the content window that the preview fills.
    pub destination: Edges,
    /// The part of the source window that it shows.
    pub source: Edges,
    pub opacity: u8,
}

/// One thing to do to the windows.
#[allow(inconsistent_fields)]
#[derive(Debug, Clone, Copy, PartialEq, Eq, Structural)]
pub enum CropAction {
    /// Report this event.
    Emit(CropWindowEvent),
    /// Show the strip without activating it.
    ShowStrip,
    HideStrip,
    /// Put the strip on top of the band that the content window is in when
    /// this is carried out; [`strip_band`] names it.
    RaiseStrip,
    /// Put the content window on top of this band.
    RaiseContent(Band),
    /// Draw the strip anew.
    RedrawStrip,
    /// Move the content window, keeping its size.
    MoveContent { x: i32, y: i32 },
    /// Give the content window this place and size.
    PlaceContent { x: i32, y: i32, w: i32, h: i32 },
    /// Read the monitor that the content window is on, and hand the reading to
    /// [`WindowState::refresh_monitor_metrics`].
    RefreshMetrics,
    /// Move the strip to [`WindowState::strip_place`], keeping its size.
    MoveStrip,
    /// Give the strip the place and size of [`WindowState::strip_place`].
    PlaceStrip,
    /// The move is through: call [`WindowState::end_self_move`].
    EndSelfMove,
    /// Update the preview; where that fails, the source is gone
    /// ([`WindowState::mark_source_gone`]).
    UpdateThumbnail(ThumbnailUpdate),
    UnregisterThumbnail(isize),
    /// Give the strip the mouse.
    CaptureStrip,
    ReleaseCapture,
    /// Ask to be told when the mouse leaves this window.
    TrackLeave(WindowRole),
    ArmHideTimer,
    KillHideTimer,
    /// Show the arrow cursor.
    ArrowCursor,
    /// Hold the rectangle under resize to the proportion of the piece, `w` to
    /// `h`, while `edge` is pulled.
    KeepAspect { edge: u32, w: u32, h: u32 },
    /// The least width and height that a resize may reach.
    LimitSize(i32),
    PaintStrip,
    /// Mark the content window as painted.
    ValidateContent,
    DestroyStrip,
    DestroyContent,
    /// End the message loop.
    Quit,
}

/// The state of a piece's two windows.
#[derive(Debug, Clone, Copy, PartialEq, Eq, Structural)]
pub struct WindowState {
    /// The registered preview.
    pub thumbnail: Option<isize>,
    /// Where the content window is.
    pub content_rect: Rect,
    /// Where it goes when a minimized piece is restored by a press.
    pub normal_rect: Rect,
    pub screen_top: i32,
    pub dpi: u32,
    pub source_rect: SourceRect,
    pub opacity: u8,
    pub minimized: bool,
    pub always_on_top: bool,
    pub hover_content: bool,
    pub hover_strip: bool,
    /// The zone of the strip under the cursor.
    pub hover_button: StripHit,
    /// The windows are being moved from here, so a position change is no news.
    pub self_move: bool,
    /// The system's own move or resize loop runs.
    pub in_size_move: bool,
    pub drag: DragTracker,
    pub source_gone_sent: bool,
}

/// The band that the content window is in, by its extended style. The strip
/// belongs in the same one: in the ordinary band it would be covered by a
/// piece that something outside has put above all windows.
pub open spec fn spec_strip_band(content_ex_style: u32) -> Band {
    if content_ex_style & WS_EX_TOPMOST != 0 {
        Band::Topmost
    } else {
        Band::Ordinary
    }
}

/// The band that the content window is in, by its extended style. The strip
/// belongs in the same one: in the ordinary band it would be covered by a
/// piece that something outside has put above all windows.
pub fn strip_band(content_ex_style: u32) -> (r: Band)
    ensures
        r == spec_strip_band(content_ex_style),
{
    if content_ex_style & WS_EX_TOPMOST != 0 {
        Band::Topmost
    } else {
        Band::Ordinary
    }
}

impl WindowState {
    /// Where the strip belongs now.
    pub open spec fn spec_strip_place(self) -> Rect {
        spec_strip_rect(self.content_rect, self.screen_top, self.dpi)
    }

    /// Where the strip belongs now.
    pub fn strip_place(&self) -> (r: Rect)
        ensures
            r == self.spec_strip_place(),
    {
        strip_rect(self.content_rect, self.screen_top, self.dpi)
    }

    /// The state with a reading of the monitor that the content window is on.
    pub open spec fn measured(self, top: Option<i32>, dpi: u32) -> WindowState {
        WindowState {
            screen_top: match top {
                Some(t) => t,
                None => self.screen_top,
            },
            dpi: if dpi > 0 {
                dpi
            } else {
                self.dpi
            },
            ..self
        }
    }

    /// What is told when the preview can no longer be shown.
    pub open spec fn gone_event(self) -> Option<CropWindowEvent> {
        if self.source_gone_sent {
            None
        } else {
            Some(CropWindowEvent::SourceGone)
        }
    }

    /// Take a reading of the monitor that the content window is on. A top edge
    /// that could not be read and a density of zero leave the old value.
    pub fn refresh_monitor_metrics(&mut self, top: Option<i32>, dpi: u32)
        ensures
            *final(self) == old(self).measured(top, dpi),
            *final(self) == (WindowState {
                screen_top: match top {
                    Some(t) => t,
                    None => old(self).screen_top,
                },
                dpi: if dpi > 0 {
                    dpi
                } else {
                    old(self).dpi
                },
                ..*old(self)
            }),
    {
        if let Some(t) = top {
            self.screen_top = t;
        }
        if dpi > 0 {
            self.dpi = dpi;
        }
    }

    /// A move of the windows is through.
    pub fn end_self_move(&mut self)
        ensures
            *final(self) == (WindowState { self_move: false, ..*old(self) }),
    {
        self.self_move = false;
    }

    /// The preview can no longer be shown: report it, the first time.
    pub fn mark_source_gone(&mut self) -> (r: Option<CropWindowEvent>)
        ensures
            r == old(self).gone_event(),
            *final(self) == (WindowState { source_gone_sent: true, ..*old(self) }),
            r == (if old(self).source_gone_sent {
                None::<CropWindowEvent>
            } else {
                Some(CropWindowEvent::SourceGone)
            }),
    {
        if self.source_gone_sent {
            return None;
        }
        self.source_gone_sent = true;
        Some(CropWindowEvent::SourceGone)
    }

    /// The proportion that a resize holds: the piece's width to its height. A
    /// piece without extent has none.
    pub open spec fn spec_aspect(self) -> Option<(u32, u32)> {
        if self.source_rect.w == 0 || self.source_rect.h == 0 {
            None
        } else {
            Some((self.source_rect.w, self.source_rect.h))
        }
    }

    /// The proportion that a resize holds: the piece's width to its height. A
    /// piece without extent has none.
    pub fn aspect(&self) -> (r: Option<(u32, u32)>)
        ensures
            r == self.spec_aspect(),
    {
        if self.source_rect.w == 0 || self.source_rect.h == 0 {
            None
        } else {
            Some((self.source_rect.w, self.source_rect.h))
        }
    }

    /// How the preview is to be drawn: over the whole content window, from the
    /// piece of the source.
    pub open spec fn thumbnail_update(self, thumbnail: isize) -> ThumbnailUpdate {
        ThumbnailUpdate {
            thumbnail,
            destination: Edges {
                left: 0,
                top: 0,
                right: length_as_coordinate(self.content_rect.w),
                bottom: length_as_coordinate(self.content_rect.h),
            },
            source: Edges {
                left: self.source_rect.x,
                top: self.source_rect.y,
                right: clamp_i32(self.source_rect.x + length_as_coordinate(self.source_rect.w)),
                bottom: clamp_i32(self.source_rect.y + length_as_coordinate(self.source_rect.h)),
            },
            opacity: self.opacity,
        }
    }

    /// What brings the preview up to date.
    pub open spec fn sync_actions(self) -> Seq<CropAction> {
        match self.thumbnail {
            Some(t) => seq![CropAction::UpdateThumbnail(self.thumbnail_update(t))],
            None => seq![],
        }
    }

    /// Bring the preview up to date.
    pub fn sync_thumbnail(&self, out: &mut Vec<CropAction>)
        ensures
            final(out)@ == old(out)@ + self.sync_actions(),
    {
        if let Some(thumbnail) = self.thumbnail {
            out.push(
                CropAction::UpdateThumbnail(
                    ThumbnailUpdate {
                        thumbnail,
                        destination: Edges {
                            left: 0,
                            top: 0,
                            right: as_coordinate(self.content_rect.w),
                            bottom: as_coordinate(self.content_rect.h),
                        },
                        source: Edges {
                            left: self.source_rect.x,
                            top: self.source_rect.y,
                            right: saturating_plus(
                                self.source_rect.x,
                                as_coordinate(self.source_rect.w),
                            ),
                            bottom: saturating_plus(
                                self.source_rect.y,
                                as_coordinate(self.source_rect.h),
                            ),
                        },
                        opacity: self.opacity,
                    },
                ),
            );
        }
        assert(out@ =~= old(out)@ + self.sync_actions());
    }

    /// The preview registered, or refused.
    pub open spec fn registered(self, thumbnail: Option<isize>) -> (WindowState, Seq<CropAction>) {
        match thumbnail {
            Some(t) => {
                let s = WindowState { thumbnail: Some(t), ..self };
                (s, s.sync_actions())
            },
            None => (
                WindowState { source_gone_sent: true, ..self },
                if self.source_gone_sent {
                    seq![]
                } else {
                    seq![CropAction::Emit(CropWindowEvent::SourceGone)]
                },
            ),
        }
    }

    /// Take up the preview that the system has registered. Where it refused to,
    /// the source is gone.
    pub fn register_thumbnail(&mut self, thumbnail: Option<isize>, out: &mut Vec<CropAction>)
        ensures
            *final(self) == old(self).registered(thumbnail).0,
            final(out)@ == old(out)@ + old(self).registered(thumbnail).1,
    {
        if let Some(t) = thumbnail {
            self.thumbnail = Some(t);
            self.sync_thumbnail(out);
        } else if let Some(event) = self.mark_source_gone() {
            out.push(CropAction::Emit(event));
        }
        assert(out@ =~= old(out)@ + old(self).registered(thumbnail).1);
    }

    /// The strip is up while a drag runs or the cursor is on either window,
    /// and never on a minimized piece.
    pub open spec fn strip_shown(self) -> bool {
        !self.minimized && (self.drag.active || self.hover_content || self.hover_strip)
    }

    /// What shows or hides the strip. A strip that is shown is also raised:
    /// the content may have come up over it while it was hidden.
    pub open spec fn visibility_actions(self) -> Seq<CropAction> {
        if self.strip_shown() {
            seq![CropAction::ShowStrip, CropAction::RaiseStrip]
        } else {
            seq![CropAction::HideStrip]
        }
    }

    /// Show or hide the strip.
    pub fn update_strip_visibility(&self, out: &mut Vec<CropAction>)
        ensures
            final(out)@ == old(out)@ + self.visibility_actions(),
    {
        if !self.minimized && (self.drag.active || self.hover_content || self.hover_strip) {
            out.push(CropAction::ShowStrip);
            out.push(CropAction::RaiseStrip);
        } else {
            out.push(CropAction::HideStrip);
        }
        assert(out@ =~= old(out)@ + self.visibility_actions());
    }

    /// The piece set to keep above all windows, or no longer.
    pub open spec fn pinned(self, on: bool) -> (WindowState, Seq<CropAction>) {
        if self.always_on_top == on {
            (self, seq![])
        } else {
            (
                WindowState { always_on_top: on, ..self },
                seq![
                    CropAction::RaiseContent(
                        if on {
                            Band::Topmost
                        } else {
                            Band::Ordinary
                        },
                    ),
                    CropAction::RaiseStrip,
                    CropAction::RedrawStrip,
                ],
            )
        }
    }

    /// Keep the piece above all windows, or no longer. The content goes first:
    /// the strip follows it into its band.
    pub fn set_always_on_top(&mut self, on: bool, out: &mut Vec<CropAction>)
        ensures
            *final(self) == old(self).pinned(on).0,
            final(out)@ == old(out)@ + old(self).pinned(on).1,
    {
        if self.always_on_top == on {
            assert(out@ =~= old(out)@ + old(self).pinned(on).1);
            return;
        }
        self.always_on_top = on;
        out.push(
            CropAction::RaiseContent(
                if on {
                    Band::Topmost
                } else {
                    Band::Ordinary
                },
            ),
        );
        out.push(CropAction::RaiseStrip);
        out.push(CropAction::RedrawStrip);
        assert(out@ =~= old(out)@ + old(self).pinned(on).1);
    }

    /// The windows moved so that the content's corner is at a point.
    pub open spec fn moved(self, x: i32, y: i32) -> (WindowState, Seq<CropAction>) {
        (
            WindowState { self_move: true, content_rect: Rect { x, y, ..self.content_rect }, ..self },
            seq![
                CropAction::MoveContent { x, y },
                CropAction::RefreshMetrics,
                CropAction::MoveStrip,
                CropAction::RaiseStrip,
                CropAction::EndSelfMove,
            ],
        )
    }

    /// Move both windows. The monitor is read after the content has moved: it
    /// may have gone to another one. A strip that moves is also raised.
    pub fn move_windows(&mut self, x: i32, y: i32, out: &mut Vec<CropAction>)
        ensures
            *final(self) == old(self).moved(x, y).0,
            final(out)@ == old(out)@ + old(self).moved(x, y).1,
    {
        self.self_move = true;
        self.content_rect.x = x;
        self.content_rect.y = y;
        out.push(CropAction::MoveContent { x, y });
        out.push(CropAction::RefreshMetrics);
        out.push(CropAction::MoveStrip);
        out.push(CropAction::RaiseStrip);
        out.push(CropAction::EndSelfMove);
        assert(out@ =~= old(out)@ + old(self).moved(x, y).1);
    }

    /// Both windows set to new bounds.
    pub open spec fn placed(self, bounds: Rect) -> (WindowState, Seq<CropAction>) {
        let s = WindowState { content_rect: bounds, self_move: true, ..self };
        (
            s,
            seq![
                CropAction::PlaceContent {
                    x: bounds.x,
                    y: bounds.y,
                    w: spec_dimensions(bounds).0,
                    h: spec_dimensions(bounds).1,
                },
                CropAction::RefreshMetrics,
                CropAction::PlaceStrip,
                CropAction::RaiseStrip,
                CropAction::EndSelfMove,
            ] + s.sync_actions(),
        )
    }

    /// Set both windows to new bounds. Whatever the system makes of them is no
    /// news, as with any move from here.
    pub fn apply_bounds(&mut self, bounds: Rect, out: &mut Vec<CropAction>)
        ensures
            *final(self) == old(self).placed(bounds).0,
            final(out)@ == old(out)@ + old(self).placed(bounds).1,
    {
        self.self_move = true;
        self.content_rect = bounds;
        let (w, h) = dimensions(bounds);
        out.push(CropAction::PlaceContent { x: bounds.x, y: bounds.y, w, h });
        out.push(CropAction::RefreshMetrics);
        out.push(CropAction::PlaceStrip);
        out.push(CropAction::RaiseStrip);
        out.push(CropAction::EndSelfMove);
        self.sync_thumbnail(out);
        assert(out@ =~= old(out)@ + old(self).placed(bounds).1);
    }

    /// The piece shrunk to a small square at a point.
    pub open spec fn shrunk(self, point: Point) -> (WindowState, Seq<CropAction>) {
        let side = spec_dip_to_px(MINIMIZED_SIDE_DIP, larger(self.dpi as int, 1) as u32);
        let s = WindowState {
            normal_rect: if self.minimized {
                self.normal_rect
            } else {
                self.content_rect
            },
            minimized: true,
            ..self
        };
        let (t, actions) = s.placed(Rect { x: point.x, y: point.y, w: side, h: side });
        (t, actions + t.visibility_actions())
    }

    /// Shrink the piece to a small square at a point, remembering where it was.
    pub fn minimize(&mut self, point: Point, out: &mut Vec<CropAction>)
        ensures
            *final(self) == old(self).shrunk(point).0,
            final(out)@ == old(out)@ + old(self).shrunk(point).1,
    {
        if !self.minimized {
            self.normal_rect = self.content_rect;
        }
        self.minimized = true;
        let side: u32 = dip_to_px(MINIMIZED_SIDE_DIP, max_u32(self.dpi, 1));
        self.apply_bounds(Rect { x: point.x, y: point.y, w: side, h: side }, out);
        self.update_strip_visibility(out);
        assert(out@ =~= old(out)@ + old(self).shrunk(point).1);
    }

    /// The piece brought back to given bounds.
    pub open spec fn restored(self, bounds: Rect) -> (WindowState, Seq<CropAction>) {
        let s = WindowState { minimized: false, normal_rect: bounds, ..self };
        let (t, actions) = s.placed(bounds);
        let u = WindowState { hover_content: false, hover_strip: false, ..t };
        (u, actions + u.visibility_actions())
    }

    /// Bring the piece back to given bounds. The strip waits for the cursor.
    pub fn restore(&mut self, bounds: Rect, out: &mut Vec<CropAction>)
        ensures
            *final(self) == old(self).restored(bounds).0,
            final(out)@ == old(out)@ + old(self).restored(bounds).1,
    {
        self.minimized = false;
        self.normal_rect = bounds;
        self.apply_bounds(bounds, out);
        self.hover_content = false;
        self.hover_strip = false;
        self.update_strip_visibility(out);
        assert(out@ =~= old(out)@ + old(self).restored(bounds).1);
    }

    /// What follows a drag that has ended: its place is reported, the mouse is
    /// given back where it is still held, and the strip is shown or hidden.
    pub open spec fn drag_end_actions(self, ended: Option<DragUpdate>, release: bool) -> Seq<
        CropAction,
    > {
        (match ended {
            Some(DragUpdate::Ended(p)) => seq![
                CropAction::Emit(
                    CropWindowEvent::Geometry {
                        x: p.x,
                        y: p.y,
                        w: self.content_rect.w,
                        h: self.content_rect.h,
                    },
                ),
            ],
            _ => seq![],
        }) + (if release {
            seq![CropAction::ReleaseCapture]
        } else {
            seq![]
        }) + self.visibility_actions()
    }

    pub(crate) fn finish_drag_update(
        &self,
        ended: Option<DragUpdate>,
        release: bool,
        out: &mut Vec<CropAction>,
    )
        ensures
            final(out)@ == old(out)@ + self.drag_end_actions(ended, release),
    {
        if let Some(DragUpdate::Ended(p)) = ended {
            out.push(
                CropAction::Emit(
                    CropWindowEvent::Geometry {
                        x: p.x,
                        y: p.y,
                        w: self.content_rect.w,
                        h: self.content_rect.h,
                    },
                ),
            );
        }
        if release {
            out.push(CropAction::ReleaseCapture);
        }
        self.update_strip_visibility(out);
        assert(out@ =~= old(out)@ + self.drag_end_actions(ended, release));
    }

    /// The drag, if one runs, brought to its end.
    pub open spec fn drag_finished(self, release: bool) -> (WindowState, Seq<CropAction>) {
        let s = WindowState { drag: DragTracker { active: false, ..self.drag }, ..self };
        (s, s.drag_end_actions(self.drag.end_update(), release))
    }

    /// Bring the drag to its end, if one runs.
    pub fn finish_drag(&mut self, release: bool, out: &mut Vec<CropAction>)
        ensures
            *final(self) == old(self).drag_finished(release).0,
            final(out)@ == old(out)@ + old(self).drag_finished(release).1,
    {
        let ended = self.drag.end();
        self.finish_drag_update(ended, release, out);
    }

    /// A command carried out.
    pub open spec fn commanded(self, command: Command) -> (WindowState, Seq<CropAction>) {
        match command {
            Command::SetOpacity(opacity) => {
                let s = WindowState { opacity, ..self };
                (s, s.sync_actions())
            },
            Command::SetBounds(bounds) => {
                let s = WindowState { normal_rect: bounds, ..self };
                if self.minimized {
                    (s, seq![])
                } else {
                    s.placed(bounds)
                }
            },
            Command::Minimize(point) => self.shrunk(point),
            Command::Restore(bounds) => self.restored(bounds),
            Command::SetAlwaysOnTop(on) => self.pinned(on),
        }
    }

    /// Carry out a command. New bounds for a minimized piece are where it will
    /// be restored to.
    pub fn apply_command(&mut self, command: Command, out: &mut Vec<CropAction>)
        ensures
            *final(self) == old(self).commanded(command).0,
            final(out)@ == old(out)@ + old(self).commanded(command).1,
    {
        match command {
            Command::SetOpacity(opacity) => {
                self.opacity = opacity;
                self.sync_thumbnail(out);
            },
            Command::SetBounds(bounds) => {
                self.normal_rect = bounds;
                if !self.minimized {
                    self.apply_bounds(bounds, out);
                }
            },
            Command::Minimize(point) => self.minimize(point, out),
            Command::Restore(bounds) => self.restore(bounds, out),
            Command::SetAlwaysOnTop(on) => self.set_always_on_top(on, out),
        }
        assert(out@ =~= old(out)@ + old(self).commanded(command).1);
    }
}

} // verus!
