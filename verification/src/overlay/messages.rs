//! What an overlay window does for each message.

use vstd::prelude::*;

use crate::input::{CaptureOp, CursorManager, CursorShape, InputEvent, Modifiers, MouseCapture};
use crate::input::{MouseMessage, Point};
use crate::model::Edges;
use crate::monitors::MonitorInfo;
use crate::num::{clamp_i32, saturating_plus, toward_zero};
use crate::overlay::codes::{
    char_from_wm_char, coded_shape, control, cursor_shape_from_wparam, is_control, key_change,
    key_event_press, power_broadcast_event, power_event, session_change_event, session_event, typed,
};
use crate::overlay::style::{is_click_through, masks_of_policy, policy_masks, DpiChange, Masks};
use crate::overlay::topmost::{TopmostGuard, TOPMOST_TIMER_ID};
use crate::overlay::{OverlayEvent, OverlayInputPolicy};
use crate::utf16::leading;
use crate::winapi::{
    HTCLIENT, HTTRANSPARENT, VK_ESCAPE, WM_CAPTURECHANGED, WM_CHAR, WM_DESTROY, WM_DISPLAYCHANGE,
    WM_DPICHANGED, WM_KEYDOWN, WM_KEYUP, WM_LBUTTONDOWN, WM_LBUTTONUP, WM_MOUSEMOVE, WM_MOUSEWHEEL,
    WM_NCDESTROY, WM_NCHITTEST, WM_POWERBROADCAST, WM_SETCURSOR, WM_TIMER, WM_WTSSESSION_CHANGE,
    WS_EX_TRANSPARENT,
};
use crate::window::Reply;

verus! {

/// Show another cursor; the long parameter is unused, the other is its code.
pub const WM_APP_EDIT_CURSOR: u32 = 0x8001;

/// Give the mouse back.
pub const WM_APP_RELEASE_CAPTURE: u32 = 0x8002;

/// Ask for the keys that control a video, or give them back.
pub const WM_APP_MEDIA_HOTKEYS: u32 = 0x8003;

/// Replace the shortcuts.
pub const WM_APP_REREGISTER_HOTKEYS: u32 = 0x8004;

/// Take the mouse in another way.
pub const WM_APP_INPUT_POLICY: u32 = 0x8005;

/// The wheel reports this much for one notch.
pub const WHEEL_DELTA: i32 = 120;

/// One message to the window.
#[derive(Debug, Clone, Copy, PartialEq, Eq, Structural)]
pub struct Message {
    pub code: u32,
    pub wparam: usize,
    pub lparam: isize,
}

/// What the system says of the moment in which a message is handled, and what
/// the message brings along.
#[derive(Debug, PartialEq, Eq)]
pub struct Moment {
    /// The extended style of the window.
    pub ex_style: u32,
    /// Alt is held.
    pub alt_down: bool,
    /// The left button is physically down.
    pub left_down: bool,
    /// The modifiers held with a key.
    pub modifiers: Modifiers,
    /// The place of a hit test in client coordinates, where it can be had.
    pub client_point: Option<Point>,
    /// The policy that the message brings.
    pub policy: Option<OverlayInputPolicy>,
    /// The change of density that the window has been moved for.
    pub moved: Option<DpiChange>,
    /// The monitors that there are now, where they could be listed.
    pub monitors: Option<Vec<MonitorInfo>>,
    /// A foreign window that covers this one.
    pub intruder: Option<usize>,
}

impl Moment {
    /// Nothing is held and the message brings nothing.
    pub fn plain(ex_style: u32) -> (r: Self)
        ensures
            r == (Moment {
                ex_style,
                alt_down: false,
                left_down: false,
                modifiers: Modifiers { shift: false, ctrl: false, alt: false },
                client_point: None,
                policy: None,
                moved: None,
                monitors: None,
                intruder: None,
            }),
    {
        Moment {
            ex_style,
            alt_down: false,
            left_down: false,
            modifiers: Modifiers { shift: false, ctrl: false, alt: false },
            client_point: None,
            policy: None,
            moved: None,
            monitors: None,
            intruder: None,
        }
    }

    /// The mouse goes through the window.
    pub open spec fn click_through(self) -> bool {
        self.ex_style & WS_EX_TRANSPARENT != 0
    }
}

/// What is to be done, in order.
#[derive(Debug, PartialEq, Eq)]
pub enum OverlayAction {
    TakeCapture,
    ReleaseCapture,
    Emit(OverlayEvent),
    ShowCursor(CursorShape),
    /// Change the extended style in one write.
    Style(Masks),
    /// Take the focus.
    Focus,
    /// Ask for the keys that control a video, or give them back.
    MediaHotkeys(bool),
    /// Replace the shortcuts by those that the message brings.
    ReloadHotkeys,
    /// Come back above the other windows.
    RaiseToTop,
    ClearHook,
    GiveUpHotkeys,
    StopTopmostTimer,
    LeaveSession,
    Quit,
}

/// What an overlay window keeps between messages.
#[derive(Debug, PartialEq, Eq)]
pub struct OverlayState {
    /// The window is there: it has been set up and is not gone yet.
    pub live: bool,
    pub capture: MouseCapture,
    /// Where the mouse is taken. Without any, the style alone decides.
    pub hit_rects: Vec<Edges>,
    pub cursor: CursorManager,
    /// The first half of a character whose other half is to come.
    pub pending_surrogate: Option<u16>,
    pub topmost: TopmostGuard,
}

/// What an overlay window keeps between messages, in contracts.
#[verifier::ext_equal]
pub struct OverlayModel {
    pub live: bool,
    pub capture: MouseCapture,
    pub hit_rects: Seq<Edges>,
    pub cursor: CursorShape,
    pub pending: Option<u16>,
    pub topmost: TopmostGuard,
}

/// One turn of the window.
#[verifier::ext_equal]
pub struct Turn {
    pub model: OverlayModel,
    pub actions: Seq<OverlayAction>,
    pub reply: Reply,
}

/// What the window procedure does and answers.
#[derive(Debug, PartialEq, Eq)]
pub struct Reaction {
    pub actions: Vec<OverlayAction>,
    pub reply: Reply,
}

/// Nothing happens.
pub open spec fn stay(s: OverlayModel, reply: Reply) -> Turn {
    Turn { model: s, actions: seq![], reply }
}

fn nothing(reply: Reply) -> (r: Reaction)
    ensures
        r.actions@ == Seq::<OverlayAction>::empty(),
        r.reply == reply,
{
    Reaction { actions: Vec::new(), reply }
}

/// A message of the left button or about the mouse capture.
pub open spec fn about_the_button(code: u32) -> bool {
    code == WM_LBUTTONDOWN || code == WM_LBUTTONUP || code == WM_MOUSEMOVE || code
        == WM_CAPTURECHANGED
}

/// What is done about the capture.
pub open spec fn capture_actions(op: CaptureOp) -> Seq<OverlayAction> {
    match op {
        CaptureOp::Keep => seq![],
        CaptureOp::Take => seq![OverlayAction::TakeCapture],
        CaptureOp::Release => seq![OverlayAction::ReleaseCapture],
    }
}

/// What is told of the mouse.
pub open spec fn input_actions(event: Option<InputEvent>) -> Seq<OverlayAction> {
    match event {
        Some(event) => seq![OverlayAction::Emit(OverlayEvent::Input(event))],
        None => seq![],
    }
}

/// A message that led to an event is done with.
pub open spec fn input_reply(event: Option<InputEvent>) -> Reply {
    match event {
        Some(_) => Reply::Value(0),
        None => Reply::System,
    }
}

/// How much the wheel turned, in its own unit.
pub open spec fn wheel_delta(wparam: usize) -> int {
    (((wparam >> 16usize) & 0xFFFF) as u16) as i16 as int
}

/// The rectangle of a policy by its edges.
pub open spec fn policy_rect(r: (i32, i32, i32, i32)) -> Edges {
    Edges { left: r.0, top: r.1, right: clamp_i32(r.0 + r.2), bottom: clamp_i32(r.1 + r.3) }
}

/// Where the mouse is taken under a policy.
pub open spec fn policy_rects(policy: OverlayInputPolicy) -> Seq<Edges> {
    match policy {
        OverlayInputPolicy::HitRects(rects) => rects@.map_values(
            |r: (i32, i32, i32, i32)| policy_rect(r),
        ),
        _ => seq![],
    }
}

/// To take the mouse in no place is to let it through.
pub open spec fn effective_policy(policy: OverlayInputPolicy) -> OverlayInputPolicy {
    match policy {
        OverlayInputPolicy::HitRects(rects) => if rects@.len() == 0 {
            OverlayInputPolicy::Transparent
        } else {
            policy
        },
        _ => policy,
    }
}

/// The policies under which the window may hold the mouse.
pub open spec fn may_hold(policy: OverlayInputPolicy) -> bool {
    policy is Interactive || policy is HoverTarget
}

/// A point lies in one of the rectangles.
pub open spec fn within(rects: Seq<Edges>, p: Point) -> bool {
    exists|i: int|
        0 <= i < rects.len() && (#[trigger] rects[i]).left <= p.x < rects[i].right && rects[i].top
            <= p.y < rects[i].bottom
}

fn is_within(rects: &Vec<Edges>, p: Point) -> (r: bool)
    ensures
        r == within(rects@, p),
{
    let mut i: usize = 0;
    while i < rects.len()
        invariant
            i <= rects.len(),
            forall|j: int|
                0 <= j < i ==> !((#[trigger] rects@[j]).left <= p.x < rects@[j].right
                    && rects@[j].top <= p.y < rects@[j].bottom),
        decreases rects.len() - i,
    {
        let e = rects[i];
        if p.x >= e.left && p.x < e.right && p.y >= e.top && p.y < e.bottom {
            assert(rects@[i as int] == e);
            return true;
        }
        i = i + 1;
    }
    false
}

impl OverlayModel {
    /// What is told to the rest of the application, while there is a window.
    pub open spec fn told(self, event: OverlayEvent) -> Seq<OverlayAction> {
        if self.live {
            seq![OverlayAction::Emit(event)]
        } else {
            seq![]
        }
    }

    /// The left button: while the mouse is taken only in places it is never
    /// held; while it goes through, whatever was held is given back.
    pub open spec fn button_turn(self, m: Message, now: Moment) -> Turn {
        if !self.live {
            stay(self, Reply::System)
        } else if self.hit_rects.len() > 0 {
            let event = MouseCapture::spec_handle_message_no_capture(m.code, m.lparam);
            Turn { model: self, actions: input_actions(event), reply: input_reply(event) }
        } else if !now.click_through() {
            let message = MouseMessage {
                msg: m.code,
                wparam: m.wparam,
                lparam: m.lparam,
                alt_down: now.alt_down,
                left_down: now.left_down,
            };
            let (op, event) = self.capture.outcome(message);
            Turn {
                model: OverlayModel { capture: self.capture.after(message), ..self },
                actions: capture_actions(op) + input_actions(event),
                reply: input_reply(event),
            }
        } else if self.capture.captured {
            Turn { reply: Reply::System, ..self.release_turn() }
        } else {
            stay(self, Reply::System)
        }
    }

    /// The mouse is given back.
    pub open spec fn release_turn(self) -> Turn {
        if self.live {
            Turn {
                model: OverlayModel {
                    capture: MouseCapture { captured: false, ..self.capture },
                    ..self
                },
                actions: seq![OverlayAction::ReleaseCapture],
                reply: Reply::Value(0),
            }
        } else {
            stay(self, Reply::Value(0))
        }
    }

    /// The wheel, by whole notches.
    pub open spec fn wheel_turn(self, wparam: usize, now: Moment) -> Turn {
        if !self.live || now.click_through() {
            stay(self, Reply::System)
        } else {
            let notches = toward_zero(wheel_delta(wparam), WHEEL_DELTA as int) as i32;
            Turn {
                model: self,
                actions: if notches != 0 {
                    input_actions(Some(InputEvent::MouseWheel { notches }))
                } else {
                    seq![]
                },
                reply: Reply::Value(0),
            }
        }
    }

    /// The system asks for the cursor.
    pub open spec fn cursor_turn(self, lparam: isize) -> Turn {
        if self.live && lparam as u32 & 0xFFFF == HTCLIENT {
            Turn {
                model: self,
                actions: seq![OverlayAction::ShowCursor(self.cursor)],
                reply: Reply::Value(1),
            }
        } else {
            stay(self, Reply::System)
        }
    }

    /// Another cursor is to be shown.
    pub open spec fn shape_turn(self, wparam: usize) -> Turn {
        match coded_shape(wparam) {
            Some(shape) => if self.live && shape != self.cursor {
                Turn {
                    model: OverlayModel { cursor: shape, ..self },
                    actions: seq![OverlayAction::ShowCursor(shape)],
                    reply: Reply::Value(0),
                }
            } else {
                stay(self, Reply::Value(0))
            },
            None => stay(self, Reply::Value(0)),
        }
    }

    /// Whether a place belongs to the window: only within its rectangles, where
    /// it has any.
    pub open spec fn hit_turn(self, now: Moment) -> Turn {
        if self.live && self.hit_rects.len() > 0 {
            stay(
                self,
                if now.client_point matches Some(p) && within(self.hit_rects, p) {
                    Reply::Value(HTCLIENT as isize)
                } else {
                    Reply::Value(HTTRANSPARENT as isize)
                },
            )
        } else {
            stay(self, Reply::System)
        }
    }

    /// The mouse is to be taken in another way: what is held is given back
    /// first, where the new way does not allow it; the style comes after the
    /// rectangles, and the focus last.
    pub open spec fn policy_turn(self, given: Option<OverlayInputPolicy>) -> Turn {
        match given {
            None => stay(self, Reply::Value(0)),
            Some(policy) => {
                let p = effective_policy(policy);
                let releases = self.live && !may_hold(p);
                Turn {
                    model: if self.live {
                        OverlayModel {
                            capture: if releases {
                                MouseCapture { captured: false, ..self.capture }
                            } else {
                                self.capture
                            },
                            hit_rects: policy_rects(p),
                            ..self
                        }
                    } else {
                        self
                    },
                    actions: (if releases {
                        seq![OverlayAction::ReleaseCapture]
                    } else {
                        seq![]
                    }) + seq![OverlayAction::Style(policy_masks(p))] + (if p
                        == (OverlayInputPolicy::Interactive { take_focus: true }) {
                        seq![OverlayAction::Focus]
                    } else {
                        seq![]
                    }),
                    reply: Reply::Value(0),
                }
            },
        }
    }

    /// The shortcuts change.
    pub open spec fn hotkeys_turn(self, m: Message) -> Turn {
        let action = if m.code == WM_APP_MEDIA_HOTKEYS {
            OverlayAction::MediaHotkeys(m.wparam != 0)
        } else {
            OverlayAction::ReloadHotkeys
        };
        Turn {
            model: self,
            actions: if self.live {
                seq![action]
            } else {
                seq![]
            },
            reply: Reply::Value(0),
        }
    }

    /// An event of the system that is passed on, with the answer to it; without
    /// one the system answers itself.
    pub open spec fn system_turn(self, event: Option<OverlayEvent>, answer: isize) -> Turn {
        match event {
            Some(event) => Turn {
                model: self,
                actions: self.told(event),
                reply: Reply::Value(answer),
            },
            None => stay(self, Reply::System),
        }
    }

    /// A unit of text.
    pub open spec fn char_turn(self, wparam: usize) -> Turn {
        if self.live {
            let (c, pending) = typed(wparam as u16, self.pending);
            Turn {
                model: OverlayModel { pending, ..self },
                actions: if c is Some && !control(c->0) {
                    seq![OverlayAction::Emit(OverlayEvent::Char(c->0))]
                } else {
                    seq![]
                },
                reply: Reply::Value(0),
            }
        } else {
            stay(self, Reply::Value(0))
        }
    }

    /// A key.
    pub open spec fn key_turn(self, m: Message, now: Moment) -> Turn {
        Turn {
            model: self,
            actions: match key_change(m.code, m.lparam) {
                Some(pressed) => self.told(
                    OverlayEvent::Key {
                        vk: m.wparam as u32,
                        modifiers: now.modifiers,
                        pressed,
                    },
                ),
                None => seq![],
            },
            reply: if m.wparam as u32 == VK_ESCAPE {
                Reply::Value(0)
            } else {
                Reply::System
            },
        }
    }

    /// Time to look whether the window is still on top.
    pub open spec fn topmost_turn(self, now: Moment) -> Turn {
        if self.live {
            Turn {
                model: OverlayModel { topmost: self.topmost.after(now.intruder), ..self },
                actions: if self.topmost.fights(now.intruder) {
                    seq![OverlayAction::RaiseToTop]
                } else {
                    seq![]
                },
                reply: Reply::Value(0),
            }
        } else {
            stay(self, Reply::Value(0))
        }
    }

    /// The window is gone.
    pub open spec fn gone_turn(self) -> Turn {
        Turn {
            model: OverlayModel { live: false, ..self },
            actions: if self.live {
                seq![OverlayAction::ClearHook, OverlayAction::GiveUpHotkeys]
            } else {
                seq![OverlayAction::ClearHook]
            },
            reply: Reply::System,
        }
    }

    /// The change of density that the window was moved for.
    pub open spec fn density_event(now: Moment) -> Option<OverlayEvent> {
        match now.moved {
            Some(c) => Some(OverlayEvent::DpiChanged { dpi: c.dpi, size: c.size }),
            None => None,
        }
    }

    /// The monitors that there are now.
    pub open spec fn monitors_event(now: Moment) -> Option<OverlayEvent> {
        match now.monitors {
            Some(list) => Some(OverlayEvent::MonitorsChanged(list)),
            None => None,
        }
    }

    /// What a message does.
    pub open spec fn turn(self, m: Message, now: Moment) -> Turn {
        if about_the_button(m.code) {
            self.button_turn(m, now)
        } else if m.code == WM_MOUSEWHEEL {
            self.wheel_turn(m.wparam, now)
        } else if m.code == WM_SETCURSOR {
            self.cursor_turn(m.lparam)
        } else if m.code == WM_APP_EDIT_CURSOR {
            self.shape_turn(m.wparam)
        } else if m.code == WM_APP_RELEASE_CAPTURE {
            self.release_turn()
        } else if m.code == WM_NCHITTEST {
            self.hit_turn(now)
        } else if m.code == WM_APP_INPUT_POLICY {
            self.policy_turn(now.policy)
        } else if m.code == WM_APP_MEDIA_HOTKEYS || m.code == WM_APP_REREGISTER_HOTKEYS {
            self.hotkeys_turn(m)
        } else if m.code == WM_DPICHANGED {
            self.system_turn(Self::density_event(now), 0)
        } else if m.code == WM_DISPLAYCHANGE {
            self.system_turn(Self::monitors_event(now), 0)
        } else if m.code == WM_WTSSESSION_CHANGE {
            self.system_turn(session_event(m.wparam), 1)
        } else if m.code == WM_POWERBROADCAST {
            self.system_turn(power_event(m.wparam), 1)
        } else if m.code == WM_CHAR {
            self.char_turn(m.wparam)
        } else if m.code == WM_KEYDOWN || m.code == WM_KEYUP {
            self.key_turn(m, now)
        } else if m.code == WM_TIMER && m.wparam == TOPMOST_TIMER_ID {
            self.topmost_turn(now)
        } else if m.code == WM_NCDESTROY {
            self.gone_turn()
        } else if m.code == WM_DESTROY {
            Turn {
                model: self,
                actions: seq![
                    OverlayAction::StopTopmostTimer,
                    OverlayAction::LeaveSession,
                    OverlayAction::Quit,
                ],
                reply: Reply::Value(0),
            }
        } else {
            stay(self, Reply::System)
        }
    }
}

impl View for OverlayState {
    type V = OverlayModel;

    open spec fn view(&self) -> OverlayModel {
        OverlayModel {
            live: self.live,
            capture: self.capture,
            hit_rects: self.hit_rects@,
            cursor: self.cursor.shape,
            pending: self.pending_surrogate,
            topmost: self.topmost,
        }
    }
}

fn push_capture(out: &mut Vec<OverlayAction>, op: CaptureOp)
    ensures
        final(out)@ == old(out)@ + capture_actions(op),
{
    match op {
        CaptureOp::Keep => {},
        CaptureOp::Take => {
            out.push(OverlayAction::TakeCapture);
        },
        CaptureOp::Release => {
            out.push(OverlayAction::ReleaseCapture);
        },
    }
    assert(out@ =~= old(out)@ + capture_actions(op));
}

fn push_input(out: &mut Vec<OverlayAction>, event: Option<InputEvent>)
    ensures
        final(out)@ == old(out)@ + input_actions(event),
{
    if let Some(event) = event {
        out.push(OverlayAction::Emit(OverlayEvent::Input(event)));
    }
    assert(out@ =~= old(out)@ + input_actions(event));
}

fn reply_to_input(event: Option<InputEvent>) -> (r: Reply)
    ensures
        r == input_reply(event),
{
    match event {
        Some(_) => Reply::Value(0),
        None => Reply::System,
    }
}

fn rects_of(rects: &Vec<(i32, i32, i32, i32)>) -> (r: Vec<Edges>)
    ensures
        r@ == rects@.map_values(|r: (i32, i32, i32, i32)| policy_rect(r)),
{
    let mut out: Vec<Edges> = Vec::new();
    let mut i: usize = 0;
    while i < rects.len()
        invariant
            i <= rects.len(),
            out@.len() == i,
            forall|j: int| 0 <= j < i ==> out@[j] == policy_rect(rects@[j]),
        decreases rects.len() - i,
    {
        let (x, y, w, h) = rects[i];
        out.push(
            Edges {
                left: x,
                top: y,
                right: saturating_plus(x, w),
                bottom: saturating_plus(y, h),
            },
        );
        i = i + 1;
    }
    assert(out@ =~= rects@.map_values(|r: (i32, i32, i32, i32)| policy_rect(r)));
    out
}

fn notches_of(wparam: usize) -> (r: i32)
    ensures
        r == toward_zero(wheel_delta(wparam), WHEEL_DELTA as int),
{
    let delta: i32 = (((wparam >> 16usize) & 0xFFFF) as u16) as i16 as i32;
    if delta >= 0 {
        delta / WHEEL_DELTA
    } else {
        -((-delta) / WHEEL_DELTA)
    }
}

impl OverlayState {
    /// Half a character that is kept is a first half.
    pub open spec fn well_formed(self) -> bool {
        &&& self.pending_surrogate matches Some(high) ==> leading(high)
        &&& self.topmost.well_formed()
    }

    /// A window that has just been set up.
    pub fn new() -> (r: Self)
        ensures
            r.well_formed(),
            r@ == (OverlayModel {
                live: true,
                capture: MouseCapture { captured: false, last_drag_pos: None },
                hit_rects: seq![],
                cursor: CursorShape::Arrow,
                pending: None,
                topmost: TopmostGuard::peace(),
            }),
    {
        OverlayState {
            live: true,
            capture: MouseCapture::new(),
            hit_rects: Vec::new(),
            cursor: CursorManager::new(),
            pending_surrogate: None,
            topmost: TopmostGuard::default(),
        }
    }

    fn on_button(&mut self, m: &Message, now: &Moment) -> (r: Reaction)
        requires
            old(self).well_formed(),
        ensures
            final(self).well_formed(),
            (Turn { model: final(self)@, actions: r.actions@, reply: r.reply })
                == old(self)@.button_turn(*m, *now),
    {
        if !self.live {
            return nothing(Reply::System);
        }
        let mut actions: Vec<OverlayAction> = Vec::new();
        if self.hit_rects.len() > 0 {
            let event = self.capture.handle_message_no_capture(m.code, m.lparam);
            push_input(&mut actions, event);
            assert(actions@ =~= input_actions(event));
            return Reaction { actions, reply: reply_to_input(event) };
        }
        if !is_click_through(now.ex_style) {
            let message = MouseMessage {
                msg: m.code,
                wparam: m.wparam,
                lparam: m.lparam,
                alt_down: now.alt_down,
                left_down: now.left_down,
            };
            let (op, event) = self.capture.handle_message_checked(&message);
            push_capture(&mut actions, op);
            push_input(&mut actions, event);
            assert(actions@ =~= capture_actions(op) + input_actions(event));
            return Reaction { actions, reply: reply_to_input(event) };
        }
        if self.capture.is_captured() {
            let released = self.on_release();
            return Reaction { actions: released.actions, reply: Reply::System };
        }
        nothing(Reply::System)
    }

    fn on_release(&mut self) -> (r: Reaction)
        requires
            old(self).well_formed(),
        ensures
            final(self).well_formed(),
            (Turn { model: final(self)@, actions: r.actions@, reply: r.reply })
                == old(self)@.release_turn(),
    {
        let mut actions: Vec<OverlayAction> = Vec::new();
        if self.live {
            let op = self.capture.force_release();
            push_capture(&mut actions, op);
            assert(actions@ =~= seq![OverlayAction::ReleaseCapture]);
        }
        Reaction { actions, reply: Reply::Value(0) }
    }

    fn on_wheel(&self, wparam: usize, now: &Moment) -> (r: Reaction)
        ensures
            (Turn { model: self@, actions: r.actions@, reply: r.reply }) == self@.wheel_turn(
                wparam,
                *now,
            ),
    {
        if !self.live || is_click_through(now.ex_style) {
            return nothing(Reply::System);
        }
        let mut actions: Vec<OverlayAction> = Vec::new();
        let notches: i32 = notches_of(wparam);
        if notches != 0 {
            push_input(&mut actions, Some(InputEvent::MouseWheel { notches }));
            assert(actions@ =~= input_actions(Some(InputEvent::MouseWheel { notches })));
        }
        Reaction { actions, reply: Reply::Value(0) }
    }

    fn on_set_cursor(&self, lparam: isize) -> (r: Reaction)
        ensures
            (Turn { model: self@, actions: r.actions@, reply: r.reply }) == self@.cursor_turn(
                lparam,
            ),
    {
        if self.live {
            if let Some(answer) = self.cursor.handle_set_cursor(lparam) {
                let mut actions: Vec<OverlayAction> = Vec::new();
                actions.push(OverlayAction::ShowCursor(self.cursor.current()));
                assert(actions@ =~= seq![OverlayAction::ShowCursor(self@.cursor)]);
                return Reaction { actions, reply: Reply::Value(answer) };
            }
        }
        nothing(Reply::System)
    }

    fn on_shape(&mut self, wparam: usize) -> (r: Reaction)
        requires
            old(self).well_formed(),
        ensures
            final(self).well_formed(),
            (Turn { model: final(self)@, actions: r.actions@, reply: r.reply })
                == old(self)@.shape_turn(wparam),
    {
        if self.live {
            if let Some(shape) = cursor_shape_from_wparam(wparam) {
                if self.cursor.set_shape(shape) {
                    let mut actions: Vec<OverlayAction> = Vec::new();
                    actions.push(OverlayAction::ShowCursor(shape));
                    assert(actions@ =~= seq![OverlayAction::ShowCursor(shape)]);
                    return Reaction { actions, reply: Reply::Value(0) };
                }
            }
        }
        nothing(Reply::Value(0))
    }

    fn on_hit_test(&self, now: &Moment) -> (r: Reaction)
        ensures
            (Turn { model: self@, actions: r.actions@, reply: r.reply }) == self@.hit_turn(*now),
    {
        if self.live && self.hit_rects.len() > 0 {
            if let Some(p) = now.client_point {
                if is_within(&self.hit_rects, p) {
                    return nothing(Reply::Value(HTCLIENT as isize));
                }
            }
            return nothing(Reply::Value(HTTRANSPARENT as isize));
        }
        nothing(Reply::System)
    }

    fn on_policy(&mut self, given: Option<OverlayInputPolicy>) -> (r: Reaction)
        requires
            old(self).well_formed(),
        ensures
            final(self).well_formed(),
            (Turn { model: final(self)@, actions: r.actions@, reply: r.reply })
                == old(self)@.policy_turn(given),
    {
        let policy = match given {
            Some(OverlayInputPolicy::HitRects(rects)) => if rects.len() == 0 {
                OverlayInputPolicy::Transparent
            } else {
                OverlayInputPolicy::HitRects(rects)
            },
            Some(other) => other,
            None => {
                return nothing(Reply::Value(0));
            },
        };
        assert(policy == effective_policy(given->0));
        let mut actions: Vec<OverlayAction> = Vec::new();
        let (holds, focuses) = match &policy {
            OverlayInputPolicy::Interactive { take_focus } => (true, *take_focus),
            OverlayInputPolicy::HoverTarget => (true, false),
            _ => (false, false),
        };
        if self.live {
            if !holds {
                let op = self.capture.force_release();
                push_capture(&mut actions, op);
            }
            self.hit_rects =
            match &policy {
                OverlayInputPolicy::HitRects(rects) => rects_of(rects),
                _ => Vec::new(),
            };
        }
        actions.push(OverlayAction::Style(masks_of_policy(&policy)));
        if focuses {
            actions.push(OverlayAction::Focus);
        }
        assert(actions@ =~= old(self)@.policy_turn(given).actions);
        assert(self@ =~= old(self)@.policy_turn(given).model);
        Reaction { actions, reply: Reply::Value(0) }
    }

    fn on_hotkeys(&self, m: &Message) -> (r: Reaction)
        ensures
            (Turn { model: self@, actions: r.actions@, reply: r.reply }) == self@.hotkeys_turn(*m),
    {
        let mut actions: Vec<OverlayAction> = Vec::new();
        if self.live {
            if m.code == WM_APP_MEDIA_HOTKEYS {
                actions.push(OverlayAction::MediaHotkeys(m.wparam != 0));
            } else {
                actions.push(OverlayAction::ReloadHotkeys);
            }
        }
        assert(actions@ =~= self@.hotkeys_turn(*m).actions);
        Reaction { actions, reply: Reply::Value(0) }
    }

    fn on_system(&self, event: Option<OverlayEvent>, answer: isize) -> (r: Reaction)
        ensures
            (Turn { model: self@, actions: r.actions@, reply: r.reply }) == self@.system_turn(
                event,
                answer,
            ),
    {
        match event {
            Some(event) => {
                let mut actions: Vec<OverlayAction> = Vec::new();
                if self.live {
                    actions.push(OverlayAction::Emit(event));
                }
                assert(actions@ =~= self@.told(event));
                Reaction { actions, reply: Reply::Value(answer) }
            },
            None => nothing(Reply::System),
        }
    }

    fn on_char(&mut self, wparam: usize) -> (r: Reaction)
        requires
            old(self).well_formed(),
        ensures
            final(self).well_formed(),
            (Turn { model: final(self)@, actions: r.actions@, reply: r.reply })
                == old(self)@.char_turn(wparam),
    {
        let mut actions: Vec<OverlayAction> = Vec::new();
        if self.live {
            if let Some(c) = char_from_wm_char(wparam as u16, &mut self.pending_surrogate) {
                if !is_control(c) {
                    actions.push(OverlayAction::Emit(OverlayEvent::Char(c)));
                }
            }
        }
        assert(actions@ =~= old(self)@.char_turn(wparam).actions);
        Reaction { actions, reply: Reply::Value(0) }
    }

    fn on_key(&self, m: &Message, now: &Moment) -> (r: Reaction)
        ensures
            (Turn { model: self@, actions: r.actions@, reply: r.reply }) == self@.key_turn(
                *m,
                *now,
            ),
    {
        let vk: u32 = m.wparam as u32;
        let mut actions: Vec<OverlayAction> = Vec::new();
        if let Some(pressed) = key_event_press(m.code, m.lparam) {
            if self.live {
                actions.push(
                    OverlayAction::Emit(
                        OverlayEvent::Key { vk, modifiers: now.modifiers, pressed },
                    ),
                );
            }
        }
        assert(actions@ =~= self@.key_turn(*m, *now).actions);
        Reaction {
            actions,
            reply: if vk == VK_ESCAPE {
                Reply::Value(0)
            } else {
                Reply::System
            },
        }
    }

    fn on_topmost_timer(&mut self, now: &Moment) -> (r: Reaction)
        requires
            old(self).well_formed(),
        ensures
            final(self).well_formed(),
            (Turn { model: final(self)@, actions: r.actions@, reply: r.reply })
                == old(self)@.topmost_turn(*now),
    {
        let mut actions: Vec<OverlayAction> = Vec::new();
        if self.live {
            if self.topmost.decide(now.intruder) {
                actions.push(OverlayAction::RaiseToTop);
            }
        }
        assert(actions@ =~= old(self)@.topmost_turn(*now).actions);
        Reaction { actions, reply: Reply::Value(0) }
    }

    fn on_gone(&mut self) -> (r: Reaction)
        requires
            old(self).well_formed(),
        ensures
            final(self).well_formed(),
            (Turn { model: final(self)@, actions: r.actions@, reply: r.reply })
                == old(self)@.gone_turn(),
    {
        let mut actions: Vec<OverlayAction> = Vec::new();
        actions.push(OverlayAction::ClearHook);
        if self.live {
            actions.push(OverlayAction::GiveUpHotkeys);
        }
        self.live = false;
        assert(actions@ =~= old(self)@.gone_turn().actions);
        Reaction { actions, reply: Reply::System }
    }

    fn on_end() -> (r: Reaction)
        ensures
            r.actions@ == seq![
                OverlayAction::StopTopmostTimer,
                OverlayAction::LeaveSession,
                OverlayAction::Quit,
            ],
            r.reply == Reply::Value(0),
    {
        let mut actions: Vec<OverlayAction> = Vec::new();
        actions.push(OverlayAction::StopTopmostTimer);
        actions.push(OverlayAction::LeaveSession);
        actions.push(OverlayAction::Quit);
        Reaction { actions, reply: Reply::Value(0) }
    }

    /// What a message does.
    pub fn on_message(&mut self, m: &Message, now: Moment) -> (r: Reaction)
        requires
            old(self).well_formed(),
        ensures
            final(self).well_formed(),
            (Turn { model: final(self)@, actions: r.actions@, reply: r.reply }) == old(self)@.turn(
                *m,
                now,
            ),
    {
        let code: u32 = m.code;
        if code == WM_LBUTTONDOWN || code == WM_LBUTTONUP || code == WM_MOUSEMOVE || code
            == WM_CAPTURECHANGED {
            self.on_button(m, &now)
        } else if code == WM_MOUSEWHEEL {
            self.on_wheel(m.wparam, &now)
        } else if code == WM_SETCURSOR {
            self.on_set_cursor(m.lparam)
        } else if code == WM_APP_EDIT_CURSOR {
            self.on_shape(m.wparam)
        } else if code == WM_APP_RELEASE_CAPTURE {
            self.on_release()
        } else if code == WM_NCHITTEST {
            self.on_hit_test(&now)
        } else if code == WM_APP_INPUT_POLICY {
            self.on_policy(now.policy)
        } else if code == WM_APP_MEDIA_HOTKEYS || code == WM_APP_REREGISTER_HOTKEYS {
            self.on_hotkeys(m)
        } else if code == WM_DPICHANGED {
            let event = match now.moved {
                Some(c) => Some(OverlayEvent::DpiChanged { dpi: c.dpi, size: c.size }),
                None => None,
            };
            self.on_system(event, 0)
        } else if code == WM_DISPLAYCHANGE {
            let event = match now.monitors {
                Some(list) => Some(OverlayEvent::MonitorsChanged(list)),
                None => None,
            };
            self.on_system(event, 0)
        } else if code == WM_WTSSESSION_CHANGE {
            self.on_system(session_change_event(m.wparam), 1)
        } else if code == WM_POWERBROADCAST {
            self.on_system(power_broadcast_event(m.wparam), 1)
        } else if code == WM_CHAR {
            self.on_char(m.wparam)
        } else if code == WM_KEYDOWN || code == WM_KEYUP {
            self.on_key(m, &now)
        } else if code == WM_TIMER && m.wparam == TOPMOST_TIMER_ID {
            self.on_topmost_timer(&now)
        } else if code == WM_NCDESTROY {
            self.on_gone()
        } else if code == WM_DESTROY {
            Self::on_end()
        } else {
            nothing(Reply::System)
        }
    }
}

} // verus!
