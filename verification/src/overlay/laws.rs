//! What holds of an overlay window over its whole life.

use vstd::prelude::*;

use crate::hotkey::groups::{all_combos, numbers_are_distinct};
use crate::hotkey::registration::{conflicting, granted, outcome, SystemReply};
use crate::hotkey::{HotkeyCombo, RegisteredHotkeySet};
use crate::input::{InputEvent, MouseMessage, Point};
use crate::model::Hotkeys;
use crate::overlay::hotkeys::{
    conflict_ids, first_with, looked_up, meaning, numbers, numbers_of, HotkeyDesk,
};
use crate::overlay::messages::{
    effective_policy, may_hold, policy_rect, within, Message, Moment, OverlayAction, OverlayModel,
    WM_APP_INPUT_POLICY,
};
use crate::overlay::style::policy_masks;
use crate::overlay::{OverlayEvent, OverlayInputPolicy};
use crate::winapi::{
    HTCLIENT, HTTRANSPARENT, WM_CAPTURECHANGED, WM_LBUTTONDOWN, WM_LBUTTONUP, WM_MOUSEMOVE,
    WM_NCHITTEST,
};
use crate::window::Reply;

verus! {

/// A window that takes the mouse only in places does not hold it.
pub open spec fn holds_as_allowed(s: OverlayModel) -> bool {
    s.live && s.capture.captured ==> s.hit_rects.len() == 0
}

/// No message makes a window that takes the mouse only in places hold it.
pub proof fn mouse_is_held_as_allowed(s: OverlayModel, m: Message, now: Moment)
    requires
        holds_as_allowed(s),
    ensures
        holds_as_allowed(s.turn(m, now).model),
{
}

/// The mouse is taken only by a press, on a window that is there, takes it
/// everywhere and does not let it through.
pub proof fn mouse_is_taken_by_a_press(s: OverlayModel, m: Message, now: Moment)
    requires
        s.turn(m, now).actions.contains(OverlayAction::TakeCapture),
    ensures
        m.code == WM_LBUTTONDOWN,
        s.live,
        s.hit_rects.len() == 0,
        !now.click_through(),
        s.turn(m, now).model.capture.captured,
{
}

/// A window that lets the mouse through reacts to nothing that the left button
/// does, and holds nothing afterwards.
pub proof fn mouse_goes_through(s: OverlayModel, m: Message, now: Moment)
    requires
        s.live,
        s.hit_rects.len() == 0,
        now.click_through(),
        m.code == WM_LBUTTONDOWN || m.code == WM_LBUTTONUP || m.code == WM_MOUSEMOVE || m.code
            == WM_CAPTURECHANGED,
    ensures
        s.turn(m, now).reply == Reply::System,
        !s.turn(m, now).model.capture.captured,
        s.turn(m, now).actions == (if s.capture.captured {
            seq![OverlayAction::ReleaseCapture]
        } else {
            seq![]
        }),
{
}

/// The release of a button that is held reaches the editor, and the mouse is
/// free.
pub proof fn release_reaches_the_editor(s: OverlayModel, m: Message, now: Moment)
    requires
        s.live,
        s.hit_rects.len() == 0,
        !now.click_through(),
        s.capture.captured,
        m.code == WM_LBUTTONUP || (m.code == WM_MOUSEMOVE && !now.left_down),
    ensures
        ({
            let message = MouseMessage {
                msg: m.code,
                wparam: m.wparam,
                lparam: m.lparam,
                alt_down: now.alt_down,
                left_down: now.left_down,
            };
            let event = InputEvent::MouseUp {
                pos: message.pos(),
                modifiers: message.modifiers(),
            };
            &&& s.turn(m, now).actions == seq![
                OverlayAction::ReleaseCapture,
                OverlayAction::Emit(OverlayEvent::Input(event)),
            ]
            &&& !s.turn(m, now).model.capture.captured
            &&& s.turn(m, now).reply == Reply::Value(0)
        }),
{
    assert(s.turn(m, now).actions =~= seq![
        OverlayAction::ReleaseCapture,
        s.turn(m, now).actions[1],
    ]);
}

/// A way of taking the mouse that does not allow holding it gives it back
/// before anything else changes, and the style is written once.
pub proof fn policy_gives_the_mouse_back(
    s: OverlayModel,
    m: Message,
    now: Moment,
    policy: OverlayInputPolicy,
)
    requires
        s.live,
        m.code == WM_APP_INPUT_POLICY,
        now.policy == Some(policy),
        !may_hold(policy),
    ensures
        !s.turn(m, now).model.capture.captured,
        s.turn(m, now).actions == seq![
            OverlayAction::ReleaseCapture,
            OverlayAction::Style(policy_masks(effective_policy(policy))),
        ],
{
    assert(s.turn(m, now).actions =~= seq![
        OverlayAction::ReleaseCapture,
        OverlayAction::Style(policy_masks(effective_policy(policy))),
    ]);
}

/// A point lies in a rectangle given by its corner and its size.
pub open spec fn lies_in(r: (i32, i32, i32, i32), p: Point) -> bool {
    &&& policy_rect(r).left <= p.x < policy_rect(r).right
    &&& policy_rect(r).top <= p.y < policy_rect(r).bottom
}

/// Once the mouse is to be taken only in some places, a place belongs to the
/// window exactly where it lies in one of them; everywhere else the mouse goes
/// on to the windows below.
pub proof fn places_are_the_windows_own(
    s: OverlayModel,
    given: Message,
    with: Moment,
    rects: Vec<(i32, i32, i32, i32)>,
    asked: Message,
    now: Moment,
    p: Point,
)
    requires
        s.live,
        given.code == WM_APP_INPUT_POLICY,
        with.policy == Some(OverlayInputPolicy::HitRects(rects)),
        rects@.len() > 0,
        asked.code == WM_NCHITTEST,
        now.client_point == Some(p),
    ensures
        s.turn(given, with).model.turn(asked, now).reply == (if exists|i: int|
            0 <= i < rects@.len() && lies_in(#[trigger] rects@[i], p) {
            Reply::Value(HTCLIENT as isize)
        } else {
            Reply::Value(HTTRANSPARENT as isize)
        }),
{
    let places = s.turn(given, with).model.hit_rects;
    assert(places.len() == rects@.len());
    if within(places, p) {
        let i = choose|i: int|
            0 <= i < places.len() && (#[trigger] places[i]).left <= p.x < places[i].right
                && places[i].top <= p.y < places[i].bottom;
        assert(lies_in(rects@[i], p));
    }
    if exists|i: int| 0 <= i < rects@.len() && lies_in(#[trigger] rects@[i], p) {
        let i = choose|i: int| 0 <= i < rects@.len() && lies_in(#[trigger] rects@[i], p);
        assert(places[i] == policy_rect(rects@[i]));
        assert(within(places, p));
    }
}

/// A window that is gone stays gone and says nothing more.
pub proof fn gone_window_is_silent(s: OverlayModel, m: Message, now: Moment, event: OverlayEvent)
    requires
        !s.live,
    ensures
        !s.turn(m, now).model.live,
        !s.turn(m, now).actions.contains(OverlayAction::Emit(event)),
        !s.turn(m, now).actions.contains(OverlayAction::TakeCapture),
{
}

/// Every shortcut that the settings can assign means something, and no two mean
/// the same.
pub proof fn shortcuts_have_their_own_meaning(hotkeys: Hotkeys, i: int, j: int)
    requires
        0 <= i < j < all_combos(hotkeys).len(),
    ensures
        meaning(all_combos(hotkeys)[i].0) is Some,
        meaning(all_combos(hotkeys)[j].0) is Some,
        meaning(all_combos(hotkeys)[i].0) != meaning(all_combos(hotkeys)[j].0),
{
    numbers_are_distinct(hotkeys);
}

proof fn first_with_is_there(combos: Seq<(i32, HotkeyCombo)>, i: int)
    requires
        0 <= i < combos.len(),
    ensures
        first_with(combos, combos[i].0) matches Some(c) && c.0 == combos[i].0,
    decreases combos.len(),
{
    if combos[0].0 != combos[i].0 {
        assert(combos.drop_first()[i - 1] == combos[i]);
        first_with_is_there(combos.drop_first(), i - 1);
    }
}

proof fn looked_up_has(combos: Seq<(i32, HotkeyCombo)>, ids: Seq<i32>, k: int)
    requires
        0 <= k < ids.len(),
        first_with(combos, ids[k]) matches Some(c) && c.0 == ids[k],
    ensures
        numbers(looked_up(combos, ids)).contains(ids[k]),
    decreases ids.len(),
{
    let before = looked_up(combos, ids.drop_last());
    let all = looked_up(combos, ids);
    if k == ids.len() - 1 {
        assert(numbers(all)[before.len() as int] == ids[k]);
    } else {
        assert(ids.drop_last()[k] == ids[k]);
        looked_up_has(combos, ids.drop_last(), k);
        let n = choose|n: int| 0 <= n < numbers(before).len() && numbers(before)[n] == ids[k];
        assert(all[n] == before[n]);
        assert(numbers(all)[n] == ids[k]);
    }
}

/// No shortcut is lost: once a set has been installed, the window answers to
/// each of them, whether it was granted or another application has it.
pub proof fn no_shortcut_is_lost(
    desk: HotkeyDesk,
    combos: Seq<(i32, HotkeyCombo)>,
    replies: Seq<SystemReply>,
    set: RegisteredHotkeySet,
    i: int,
)
    requires
        0 <= i < combos.len(),
        combos.len() == replies.len(),
        forall|j: int|
            0 <= j < combos.len() ==> !(outcome((#[trigger] combos[j]).0, replies[j]) is Failed),
        set.ids() == granted(combos, replies),
        set.taken_texts() == conflicting(combos, replies),
        desk.well_formed(),
        desk.hotkeys@ == set.hotkeys@,
        desk.fallback_permanent@ == looked_up(combos, conflict_ids(set.taken@)),
    ensures
        desk.answers(combos[i].0),
{
    crate::hotkey::registration::conflicts_stay_apart(combos, replies, i);
    let id = combos[i].0;
    if outcome(id, replies[i]) is Granted {
        assert(set.ids().contains(id));
        assert(set.ids() =~= numbers_of(desk.hotkeys@));
    } else {
        let texts = set.taken_texts();
        let k = choose|k: int|
            0 <= k < texts.len() && texts[k] == (id, crate::hotkey::display::shown(combos[i].1));
        let ids = conflict_ids(set.taken@);
        assert(ids[k] == id);
        first_with_is_there(combos, i);
        looked_up_has(combos, ids, k);
        let all = numbers(desk.fallbacks());
        let part = numbers(desk.fallback_permanent@);
        let n = choose|n: int| 0 <= n < part.len() && part[n] == id;
        assert(all[n] == id);
        assert(all.to_set().contains(id));
    }
}

} // verus!
