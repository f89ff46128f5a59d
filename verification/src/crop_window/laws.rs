//! What holds of the windows of a piece over all messages.

use vstd::prelude::*;

use crate::crop_window::geometry::spec_dip_to_px;
use crate::crop_window::messages::{
    done, geometry_event, Message, Moment, MIN_SIDE_DIP, WM_APP_SHUTDOWN,
};
use crate::crop_window::state::{Command, CropAction, WindowRole, WindowState};
use crate::crop_window::{CropWindowEvent, Point};
use crate::model::Rect;
use crate::num::larger;
use crate::winapi::{WM_CAPTURECHANGED, WM_CLOSE, WM_EXITSIZEMOVE, WM_WINDOWPOSCHANGED};

verus! {

/// An action that reports where the piece is.
pub open spec fn is_geometry_report(a: CropAction) -> bool {
    a matches CropAction::Emit(CropWindowEvent::Geometry { .. })
}

/// An action that shows the strip or moves it.
pub open spec fn brings_up_strip(a: CropAction) -> bool {
    a == CropAction::ShowStrip || a == CropAction::MoveStrip || a == CropAction::PlaceStrip
}

/// An action that reports anything.
pub open spec fn is_report(a: CropAction) -> bool {
    a is Emit
}

/// What every turn keeps: of the strip, of the report of a drag, of the mouse
/// and of the mark of an own move.
#[verifier::opaque]
spec fn audited(pre: WindowState, m: Message, post: WindowState, actions: Seq<CropAction>) -> bool {
    &&& post.minimized ==> forall|i: int|
        0 <= i < actions.len() ==> actions[i] != CropAction::ShowStrip
    &&& forall|i: int|
        0 <= i < actions.len() && brings_up_strip(#[trigger] actions[i]) ==> i + 1 < actions.len()
            && actions[i + 1] == CropAction::RaiseStrip
    &&& post.drag.active && !(m.code == WM_EXITSIZEMOVE && m.role is Content) ==> forall|i: int|
        0 <= i < actions.len() ==> !is_geometry_report(#[trigger] actions[i])
    &&& pre.drag.active && !post.drag.active ==> reports_once(actions, drag_report(pre))
    &&& forall|i: int|
        0 <= i < actions.len() && #[trigger] actions[i] == CropAction::CaptureStrip
            ==> post.drag.active
    &&& pre.drag.active && !post.drag.active && m.code != WM_CAPTURECHANGED ==> actions.contains(
        CropAction::ReleaseCapture,
    )
    &&& !pre.self_move && post.self_move ==> actions.contains(CropAction::EndSelfMove)
}

/// The report that the end of a drag owes: where the content was last moved to,
/// with the size it has.
pub open spec fn drag_report(s: WindowState) -> CropAction {
    CropAction::Emit(
        CropWindowEvent::Geometry {
            x: s.drag.current.x,
            y: s.drag.current.y,
            w: s.content_rect.w,
            h: s.content_rect.h,
        },
    )
}

/// Among these actions one reports a place, and it is this one.
pub open spec fn reports_once(actions: Seq<CropAction>, report: CropAction) -> bool {
    exists|i: int|
        0 <= i < actions.len() && #[trigger] actions[i] == report && forall|j: int|
            0 <= j < actions.len() && is_geometry_report(#[trigger] actions[j]) ==> i == j
}

proof fn audit_quiet(s: WindowState, m: Message, post: WindowState)
    requires
        post.drag == s.drag,
        post.self_move == s.self_move,
    ensures
        audited(s, m, post, seq![]),
{
    reveal(audited);
}

proof fn audit_single(s: WindowState, m: Message, post: WindowState, a: CropAction)
    requires
        post.drag == s.drag,
        post.self_move == s.self_move,
        !brings_up_strip(a),
        a != CropAction::CaptureStrip,
        !is_geometry_report(a),
    ensures
        audited(s, m, post, seq![a]),
{
    reveal(audited);
}

proof fn audit_drag_finished(s: WindowState, m: Message, release: bool)
    requires
        release || m.code == WM_CAPTURECHANGED,
    ensures
        audited(s, m, s.drag_finished(release).0, s.drag_finished(release).1),
{
    reveal(audited);
    let actions = s.drag_finished(release).1;
    if s.drag.active {
        assert(actions[0] == drag_report(s));
        if release {
            assert(actions[1] == CropAction::ReleaseCapture);
        }
    }
}

proof fn audit_dragged(s: WindowState, m: Message, at: Moment)
    ensures
        ({
            let actions = s.dragged(at).1.push(CropAction::TrackLeave(WindowRole::Strip));
            s.drag.active ==> audited(s, m, s.dragged(at).0, actions)
        }),
{
    reveal(audited);
    let actions = s.dragged(at).1.push(CropAction::TrackLeave(WindowRole::Strip));
    if s.drag.active {
        if !at.left_down {
            assert(actions[0] == drag_report(s));
            assert(actions[1] == CropAction::ReleaseCapture);
        } else if at.cursor is Some {
            assert(actions[4] == CropAction::EndSelfMove);
        }
    }
}

proof fn audit_mouse_moved(s: WindowState, m: Message, at: Moment)
    ensures
        audited(s, m, s.mouse_moved(m, at).0, s.mouse_moved(m, at).1),
{
    if m.role is Strip && s.drag.active {
        audit_dragged(s, m, at);
    } else {
        reveal(audited);
    }
}

proof fn audit_mouse_left(s: WindowState, m: Message)
    ensures
        audited(s, m, s.mouse_left(m.role).0, s.mouse_left(m.role).1),
{
    reveal(audited);
}

proof fn audit_loop_ended(s: WindowState, m: Message)
    requires
        m.code == WM_EXITSIZEMOVE && m.role is Content,
    ensures
        audited(s, m, s.loop_ended().0, s.loop_ended().1),
{
    reveal(audited);
}

proof fn audit_position_changed(s: WindowState, m: Message, at: Moment)
    ensures
        audited(s, m, s.position_changed(at).0, s.position_changed(at).1),
{
    reveal(audited);
    let actions = s.position_changed(at).1;
    if s.moved_from_outside(at) is Some {
        if WindowState::order_changed(at.position_flags) {
            assert(actions[4] == CropAction::EndSelfMove);
        } else {
            assert(actions[3] == CropAction::EndSelfMove);
        }
    }
}

proof fn audit_hide_timer(s: WindowState, m: Message, at: Moment)
    ensures
        audited(s, m, s.hide_timer_ran(at).0, s.hide_timer_ran(at).1),
{
    reveal(audited);
}

proof fn audit_strip_pressed(s: WindowState, m: Message, at: Moment)
    ensures
        audited(s, m, s.strip_pressed(m, at).0, s.strip_pressed(m, at).1),
{
    reveal(audited);
}

proof fn audit_square_pressed(s: WindowState, m: Message)
    ensures
        audited(s, m, s.square_pressed().0, s.square_pressed().1),
{
    reveal(audited);
    assert(s.square_pressed().1[4] == CropAction::EndSelfMove);
}

proof fn audit_closed(s: WindowState, m: Message, role: WindowRole)
    ensures
        audited(s, m, s.closed_by_system(role).0, s.closed_by_system(role).1),
{
    reveal(audited);
    let actions = s.closed_by_system(role).1;
    if s.drag.active {
        assert(actions[1] == drag_report(s));
        assert(actions[2] == CropAction::ReleaseCapture);
    }
}

proof fn audit_shut_down(s: WindowState, m: Message)
    ensures
        audited(s, m, s.shut_down().0, s.shut_down().1),
{
    reveal(audited);
    let actions = s.shut_down().1;
    if s.drag.active {
        assert(actions[0] == drag_report(s));
        assert(actions[1] == CropAction::ReleaseCapture);
    }
}

proof fn audit_destroyed(s: WindowState, m: Message)
    ensures
        audited(s, m, s.content_destroyed().0, s.content_destroyed().1),
{
    reveal(audited);
}

proof fn audit_commanded(s: WindowState, m: Message, c: Command)
    ensures
        audited(s, m, s.commanded(c).0, s.commanded(c).1),
{
    reveal(audited);
    if s.commanded(c).0.self_move && !s.self_move {
        assert(s.commanded(c).1[4] == CropAction::EndSelfMove);
    }
}

proof fn audit_content_step(s: WindowState, m: Message, at: Moment)
    requires
        m.role is Content,
    ensures
        s.content_step(m, at) matches Some(step) ==> audited(s, m, step.state, step.actions),
{
    audit_quiet(s, m, s);
    audit_quiet(s, m, WindowState { in_size_move: true, ..s });
    audit_single(s, m, s, CropAction::Emit(CropWindowEvent::RestoreClicked));
    audit_single(s, m, s, CropAction::ValidateContent);
    audit_single(
        s,
        m,
        s,
        CropAction::LimitSize(
            spec_dip_to_px(MIN_SIDE_DIP, larger(s.dpi as int, 1) as u32) as i32,
        ),
    );
    if let Some((w, h)) = s.spec_aspect() {
        audit_single(s, m, s, CropAction::KeepAspect { edge: m.wparam as u32, w, h });
    }
    if m.code == WM_EXITSIZEMOVE {
        audit_loop_ended(s, m);
    }
    audit_position_changed(s, m, at);
    audit_square_pressed(s, m);
    audit_destroyed(s, m);
    if let Some(c) = at.command {
        audit_commanded(s, m, c);
    }
}

proof fn audit_step(s: WindowState, m: Message, at: Moment)
    ensures
        audited(s, m, s.step(m, at).state, s.step(m, at).actions),
{
    audit_quiet(s, m, s);
    audit_single(s, m, s, CropAction::PaintStrip);
    audit_single(s, m, s, CropAction::ArrowCursor);
    if m.role is Content {
        audit_content_step(s, m, at);
    }
    audit_drag_finished(s, m, true);
    if m.code == WM_CAPTURECHANGED {
        audit_drag_finished(s, m, false);
    }
    audit_strip_pressed(s, m, at);
    audit_mouse_moved(s, m, at);
    audit_mouse_left(s, m);
    audit_hide_timer(s, m, at);
    audit_closed(s, m, m.role);
    audit_shut_down(s, m);
}

/// A minimized piece never has a strip: it would cover the one place to press.
pub proof fn minimized_piece_shows_no_strip(s: WindowState, m: Message, at: Moment)
    ensures
        s.step(m, at).state.minimized ==> forall|i: int|
            0 <= i < s.step(m, at).actions.len() ==> s.step(m, at).actions[i]
                != CropAction::ShowStrip,
{
    audit_step(s, m, at);
    reveal(audited);
}

/// Whatever is shown or moved is raised: a strip that comes up or changes its
/// place is put on top right after.
pub proof fn shown_strip_is_raised(s: WindowState, m: Message, at: Moment)
    ensures
        forall|i: int|
            0 <= i < s.step(m, at).actions.len() && brings_up_strip(
                #[trigger] s.step(m, at).actions[i],
            ) ==> i + 1 < s.step(m, at).actions.len() && s.step(m, at).actions[i + 1]
                == CropAction::RaiseStrip,
{
    audit_step(s, m, at);
    reveal(audited);
}

/// While a drag runs nothing is reported of the piece's place. The end of the
/// system's own resize loop is the one message that reports regardless.
pub proof fn running_drag_is_silent(s: WindowState, m: Message, at: Moment)
    requires
        !(m.code == WM_EXITSIZEMOVE && m.role is Content),
    ensures
        s.step(m, at).state.drag.active ==> forall|i: int|
            0 <= i < s.step(m, at).actions.len() ==> !is_geometry_report(
                #[trigger] s.step(m, at).actions[i],
            ),
{
    audit_step(s, m, at);
    reveal(audited);
}

/// Whatever ends a drag, its place is reported, and reported once.
pub proof fn ended_drag_reports_once(s: WindowState, m: Message, at: Moment)
    requires
        s.drag.active,
        !s.step(m, at).state.drag.active,
    ensures
        reports_once(s.step(m, at).actions, drag_report(s)),
{
    audit_step(s, m, at);
    reveal(audited);
}

/// The mouse is taken only for a drag, and whatever ends a drag gives it back.
/// Only a message that says it is already lost does not.
pub proof fn capture_is_given_back(s: WindowState, m: Message, at: Moment)
    ensures
        forall|i: int|
            0 <= i < s.step(m, at).actions.len() && #[trigger] s.step(m, at).actions[i]
                == CropAction::CaptureStrip ==> s.step(m, at).state.drag.active,
        s.drag.active && !s.step(m, at).state.drag.active && m.code != WM_CAPTURECHANGED ==> s.step(
            m,
            at,
        ).actions.contains(CropAction::ReleaseCapture),
{
    audit_step(s, m, at);
    reveal(audited);
}

/// The mark of an own move is lowered by the same turn that raised it.
pub proof fn own_move_comes_to_an_end(s: WindowState, m: Message, at: Moment)
    ensures
        !s.self_move && s.step(m, at).state.self_move ==> s.step(m, at).actions.contains(
            CropAction::EndSelfMove,
        ),
{
    audit_step(s, m, at);
    reveal(audited);
}

/// While the windows move themselves a change of place is no news: nothing is
/// taken over and nothing is reported.
pub proof fn own_moves_are_no_news(s: WindowState, at: Moment)
    requires
        s.self_move,
    ensures
        s.position_changed(at).0 == s,
        forall|i: int|
            0 <= i < s.position_changed(at).1.len() ==> !is_report(
                #[trigger] s.position_changed(at).1[i],
            ),
{
}

/// Bounds that the windows were told to take up are no news either: whatever
/// place the system then gives the content window, nothing is reported of it.
pub proof fn own_bounds_are_no_news(s: WindowState, bounds: Rect, at: Moment)
    ensures
        s.placed(bounds).0.content_rect == bounds,
        s.placed(bounds).0.position_changed(at).0 == s.placed(bounds).0,
        forall|i: int|
            0 <= i < s.placed(bounds).0.position_changed(at).1.len() ==> !is_report(
                #[trigger] s.placed(bounds).0.position_changed(at).1[i],
            ),
{
    own_moves_are_no_news(s.placed(bounds).0, at);
}

/// The system's own resize loop is reported once, at its end: steps inside it
/// say nothing, its end says where the piece is.
pub proof fn resize_loop_reports_once(s: WindowState, m: Message, at: Moment)
    requires
        m.role is Content,
    ensures
        s.in_size_move && m.code == WM_WINDOWPOSCHANGED ==> forall|i: int|
            0 <= i < s.step(m, at).actions.len() ==> !is_report(
                #[trigger] s.step(m, at).actions[i],
            ),
        m.code == WM_EXITSIZEMOVE ==> !s.step(m, at).state.in_size_move && s.step(
            m,
            at,
        ).actions.last() == CropAction::Emit(geometry_event(s.content_rect)),
{
}

/// Only a close that comes from the system reports that the piece was closed;
/// taking the windows down says nothing of the kind. Both destroy the strip,
/// and a shutdown destroys the content too.
pub proof fn shutdown_is_no_close(s: WindowState, role: WindowRole)
    ensures
        s.closed_by_system(role).1[0] == CropAction::Emit(CropWindowEvent::CloseClicked),
        s.closed_by_system(role).1.contains(CropAction::DestroyStrip),
        forall|i: int|
            0 <= i < s.shut_down().1.len() ==> s.shut_down().1[i] != CropAction::Emit(
                CropWindowEvent::CloseClicked,
            ),
        s.shut_down().1.contains(CropAction::DestroyStrip),
        s.shut_down().1.contains(CropAction::DestroyContent),
{
    let closed = s.closed_by_system(role).1;
    if role is Content {
        assert(closed[closed.len() - 2] == CropAction::DestroyStrip);
    } else {
        assert(closed[closed.len() - 1] == CropAction::DestroyStrip);
    }
    let down = s.shut_down().1;
    assert(down[down.len() - 2] == CropAction::DestroyStrip);
    assert(down[down.len() - 1] == CropAction::DestroyContent);
}

/// The two messages that take a piece down do what is said of them above.
pub proof fn close_and_shutdown_are_told_apart(s: WindowState, m: Message, at: Moment)
    ensures
        m.code == WM_CLOSE ==> s.step(m, at) == done(s.closed_by_system(m.role)),
        m.code == WM_APP_SHUTDOWN ==> s.step(m, at) == done(s.shut_down()),
{
}

/// A press on the square undoes a minimize, wherever the square was put and
/// however often the minimize was repeated. Only the mark of an own move stays
/// up until the move is through.
pub proof fn press_undoes_minimize(s: WindowState, first: Point, again: Point)
    requires
        !s.minimized,
    ensures
        ({
            let once = s.shrunk(first).0;
            let twice = once.shrunk(again).0;
            let back = WindowState { normal_rect: s.content_rect, self_move: true, ..s };
            &&& once.minimized
            &&& twice.minimized
            &&& once.square_pressed().0 == back
            &&& twice.square_pressed().0 == back
        }),
{
}

/// Switching the pin on and off again leaves the piece as it was.
pub proof fn pin_toggles_back(s: WindowState)
    ensures
        s.pinned(!s.always_on_top).0.pinned(s.always_on_top).0 == s,
        s.pinned(s.always_on_top) == (s, Seq::<CropAction>::empty()),
{
}

} // verus!
