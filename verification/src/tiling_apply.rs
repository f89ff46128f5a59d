//! Sending windows to their places.

use vstd::prelude::*;

use crate::model::Edges;
use crate::num::{clamp_i32, saturating_plus};

verus! {

/// A window's rectangle by its corner and its size.
#[derive(Debug, Clone, Copy, PartialEq, Eq, Structural)]
pub struct WindowRect {
    pub x: i32,
    pub y: i32,
    pub w: i32,
    pub h: i32,
}

/// Where one window is to go.
#[derive(Debug, Clone, Copy, PartialEq, Eq, Structural)]
pub struct TileTarget {
    pub hwnd: usize,
    pub rect: WindowRect,
}

/// What came of sending one window to its place.
#[derive(Debug, Clone, Copy, PartialEq, Eq, Structural)]
pub enum Placed {
    Sent,
    /// There is no such window any more.
    Gone,
    Refused,
}

/// What came of sending windows to their places.
#[derive(Debug, Clone, PartialEq, Eq)]
pub struct ApplyReport {
    /// The windows that were sent to their places.
    pub attempted: Vec<usize>,
    /// The windows that are gone.
    pub dead: Vec<usize>,
    /// The windows that the system would not move.
    pub refused: Vec<usize>,
}

/// The windows of the targets with one outcome, in order.
pub open spec fn with_outcome(
    targets: Seq<TileTarget>,
    outcomes: Seq<Placed>,
    outcome: Placed,
) -> Seq<usize>
    decreases targets.len(),
{
    if targets.len() == 0 {
        seq![]
    } else {
        let before = with_outcome(targets.drop_last(), outcomes, outcome);
        if outcomes[targets.len() - 1] == outcome {
            before.push(targets.last().hwnd)
        } else {
            before
        }
    }
}

impl Default for ApplyReport {
    fn default() -> (r: Self)
        ensures
            r.attempted@.len() == 0,
            r.dead@.len() == 0,
            r.refused@.len() == 0,
    {
        Self { attempted: Vec::new(), dead: Vec::new(), refused: Vec::new() }
    }
}

impl ApplyReport {
    /// Whether nothing happened.
    pub fn is_empty(&self) -> (r: bool)
        ensures
            r == (self.attempted@.len() == 0 && self.dead@.len() == 0 && self.refused@.len() == 0),
    {
        self.attempted.len() == 0 && self.dead.len() == 0 && self.refused.len() == 0
    }
}

/// What came of sending windows to their places, one outcome for each.
pub fn apply(targets: &Vec<TileTarget>, outcomes: &Vec<Placed>) -> (r: ApplyReport)
    requires
        targets@.len() == outcomes@.len(),
    ensures
        r.attempted@ == with_outcome(targets@, outcomes@, Placed::Sent),
        r.dead@ == with_outcome(targets@, outcomes@, Placed::Gone),
        r.refused@ == with_outcome(targets@, outcomes@, Placed::Refused),
{
    let mut report = ApplyReport::default();
    let mut i: usize = 0;
    assert(targets@.take(0) =~= Seq::<TileTarget>::empty());
    while i < targets.len()
        invariant
            i <= targets@.len(),
            targets@.len() == outcomes@.len(),
            report.attempted@ == with_outcome(
                targets@.take(i as int),
                outcomes@,
                Placed::Sent,
            ),
            report.dead@ == with_outcome(targets@.take(i as int), outcomes@, Placed::Gone),
            report.refused@ == with_outcome(
                targets@.take(i as int),
                outcomes@,
                Placed::Refused,
            ),
        decreases targets.len() - i,
    {
        let hwnd: usize = targets[i].hwnd;
        proof {
            assert(targets@.take(i + 1).drop_last() =~= targets@.take(i as int));
            assert(targets@.take(i + 1).last() == targets@[i as int]);
        }
        match outcomes[i] {
            Placed::Sent => {
                report.attempted.push(hwnd);
            },
            Placed::Gone => {
                report.dead.push(hwnd);
            },
            Placed::Refused => {
                report.refused.push(hwnd);
            },
        }
        i = i + 1;
    }
    assert(targets@.take(targets@.len() as int) =~= targets@);
    report
}

/// A rectangle by its edges.
pub open spec fn edges_of_window(r: WindowRect) -> Edges {
    Edges {
        left: r.x,
        top: r.y,
        right: clamp_i32(r.x + r.w),
        bottom: clamp_i32(r.y + r.h),
    }
}

/// A rectangle by its edges; an edge that would lie outside the range of
/// coordinates is held at its end.
pub fn to_rect(r: WindowRect) -> (e: Edges)
    ensures
        e == edges_of_window(r),
        e == (Edges {
            left: r.x,
            top: r.y,
            right: clamp_i32(r.x + r.w),
            bottom: clamp_i32(r.y + r.h),
        }),
{
    Edges {
        left: r.x,
        top: r.y,
        right: saturating_plus(r.x, r.w),
        bottom: saturating_plus(r.y, r.h),
    }
}

proof fn outcomes_add_up(targets: Seq<TileTarget>, outcomes: Seq<Placed>)
    ensures
        with_outcome(targets, outcomes, Placed::Sent).len() + with_outcome(
            targets,
            outcomes,
            Placed::Gone,
        ).len() + with_outcome(targets, outcomes, Placed::Refused).len() == targets.len(),
    decreases targets.len(),
{
    if targets.len() > 0 {
        outcomes_add_up(targets.drop_last(), outcomes);
    }
}

/// Every window is reported once: the three lists together are as long as the
/// list of targets, and the report is empty only where there were none.
pub proof fn every_window_is_reported(
    targets: Seq<TileTarget>,
    outcomes: Seq<Placed>,
    report: ApplyReport,
)
    requires
        targets.len() == outcomes.len(),
        report.attempted@ == with_outcome(targets, outcomes, Placed::Sent),
        report.dead@ == with_outcome(targets, outcomes, Placed::Gone),
        report.refused@ == with_outcome(targets, outcomes, Placed::Refused),
    ensures
        report.attempted@.len() + report.dead@.len() + report.refused@.len() == targets.len(),
{
    outcomes_add_up(targets, outcomes);
}

/// What is to be done next to give a window the focus.
#[derive(Debug, Clone, Copy, PartialEq, Eq, Structural)]
pub enum FocusAction {
    /// Ask whether there is such a window.
    AskAlive,
    /// Bring it to the front.
    BringForward,
    /// Look which window is in front now, and whether it hangs.
    LookInFront,
    /// Ask which threads that window and this application run on.
    AskThreads,
    /// Join the input of the window in front.
    Attach,
    /// Bring the window to the front, having joined.
    BringForwardJoined,
    Detach,
    /// It is over, with this outcome.
    Finish(bool),
}

/// What the system answered.
#[derive(Debug, Clone, Copy, PartialEq, Eq, Structural)]
pub enum FocusReply {
    /// It worked, or not.
    Done(bool),
    /// Whether a window is in front, and whether it hangs.
    InFront { there: bool, hangs: bool },
    /// The two threads; zero is none.
    Threads { in_front: u32, own: u32 },
}

/// How far the giving of the focus has come.
#[derive(Debug, Clone, Copy, PartialEq, Eq, Structural)]
pub struct FocusStep {
    /// What was last asked for.
    pub action: FocusAction,
    /// This application has joined the input of the window in front.
    pub attached: bool,
    /// The window was brought to the front, having joined.
    pub brought: bool,
}

/// Give a window the focus.
pub fn focus() -> (r: FocusStep)
    ensures
        r == (FocusStep { action: FocusAction::AskAlive, attached: false, brought: false }),
{
    FocusStep { action: FocusAction::AskAlive, attached: false, brought: false }
}

impl FocusStep {
    /// What follows on a reply. Where the system will not bring the window
    /// forward, the input of the window in front is joined for the time of
    /// another try; but not that of one that hangs, which would hang this
    /// application too.
    pub open spec fn next(self, reply: FocusReply) -> FocusStep {
        match (self.action, reply) {
            (FocusAction::AskAlive, FocusReply::Done(ok)) => FocusStep {
                action: if ok {
                    FocusAction::BringForward
                } else {
                    FocusAction::Finish(false)
                },
                ..self
            },
            (FocusAction::BringForward, FocusReply::Done(ok)) => FocusStep {
                action: if ok {
                    FocusAction::Finish(true)
                } else {
                    FocusAction::LookInFront
                },
                ..self
            },
            (FocusAction::LookInFront, FocusReply::InFront { there, hangs }) => FocusStep {
                action: if there && !hangs {
                    FocusAction::AskThreads
                } else {
                    FocusAction::Finish(false)
                },
                ..self
            },
            (FocusAction::AskThreads, FocusReply::Threads { in_front, own }) => FocusStep {
                action: if in_front == 0 || in_front == own {
                    FocusAction::Finish(false)
                } else {
                    FocusAction::Attach
                },
                ..self
            },
            (FocusAction::Attach, FocusReply::Done(ok)) => FocusStep {
                action: FocusAction::BringForwardJoined,
                attached: ok,
                ..self
            },
            (FocusAction::BringForwardJoined, FocusReply::Done(ok)) => FocusStep {
                action: if self.attached {
                    FocusAction::Detach
                } else {
                    FocusAction::Finish(ok)
                },
                brought: ok,
                ..self
            },
            (FocusAction::Detach, FocusReply::Done(_)) => FocusStep {
                action: FocusAction::Finish(self.brought),
                attached: false,
                ..self
            },
            _ => self,
        }
    }

    /// Take up a reply. One that does not answer what was asked changes
    /// nothing.
    pub fn advance(&mut self, reply: FocusReply)
        ensures
            *final(self) == old(self).next(reply),
    {
        match (self.action, reply) {
            (FocusAction::AskAlive, FocusReply::Done(ok)) => {
                self.action =
                if ok {
                    FocusAction::BringForward
                } else {
                    FocusAction::Finish(false)
                };
            },
            (FocusAction::BringForward, FocusReply::Done(ok)) => {
                self.action =
                if ok {
                    FocusAction::Finish(true)
                } else {
                    FocusAction::LookInFront
                };
            },
            (FocusAction::LookInFront, FocusReply::InFront { there, hangs }) => {
                self.action =
                if there && !hangs {
                    FocusAction::AskThreads
                } else {
                    FocusAction::Finish(false)
                };
            },
            (FocusAction::AskThreads, FocusReply::Threads { in_front, own }) => {
                self.action =
                if in_front == 0 || in_front == own {
                    FocusAction::Finish(false)
                } else {
                    FocusAction::Attach
                };
            },
            (FocusAction::Attach, FocusReply::Done(ok)) => {
                self.attached = ok;
                self.action = FocusAction::BringForwardJoined;
            },
            (FocusAction::BringForwardJoined, FocusReply::Done(ok)) => {
                self.brought = ok;
                self.action =
                if self.attached {
                    FocusAction::Detach
                } else {
                    FocusAction::Finish(ok)
                };
            },
            (FocusAction::Detach, FocusReply::Done(_)) => {
                self.attached = false;
                self.action = FocusAction::Finish(self.brought);
            },
            _ => {},
        }
    }
}

/// The inputs are joined only for the other try.
pub open spec fn joined_for_the_try(step: FocusStep) -> bool {
    step.attached ==> step.action is BringForwardJoined || step.action is Detach
}

/// Whatever the system answers, the inputs are parted again before it is over.
pub proof fn inputs_are_parted(step: FocusStep, reply: FocusReply)
    requires
        joined_for_the_try(step),
    ensures
        joined_for_the_try(step.next(reply)),
        step.next(reply).action is Finish ==> !step.next(reply).attached,
{
}

/// Whether a window was asked to close: only one that is there can be.
pub fn close(alive: bool, posted: bool) -> (r: bool)
    ensures
        r == (alive && posted),
{
    alive && posted
}

/// The report is drawn up window by window: each goes to the end of the list of
/// its outcome and to no other.
pub proof fn window_goes_to_the_list_of_its_outcome(
    targets: Seq<TileTarget>,
    outcomes: Seq<Placed>,
    t: TileTarget,
    list: Placed,
)
    requires
        outcomes.len() > targets.len(),
    ensures
        outcomes[targets.len() as int] == list ==> with_outcome(targets.push(t), outcomes, list)
            == with_outcome(targets, outcomes, list).push(t.hwnd),
        outcomes[targets.len() as int] != list ==> with_outcome(targets.push(t), outcomes, list)
            == with_outcome(targets, outcomes, list),
        with_outcome(Seq::empty(), outcomes, list) == Seq::<usize>::empty(),
{
    assert(targets.push(t).drop_last() =~= targets);
}

/// How the giving of the focus ends, by all that the system answers on the way:
/// well where the window is there and either comes forward at once, or comes
/// forward on the other try, which is made only if there is a window in front that
/// does not hang and runs on another thread. Having joined that thread's input or
/// not makes no difference to the outcome.
pub proof fn focus_ends_by_the_answers(
    alive: bool,
    at_once: bool,
    there: bool,
    hangs: bool,
    in_front: u32,
    own: u32,
    joined: bool,
    then: bool,
    parted: bool,
)
    ensures
        ({
            let start = FocusStep {
                action: FocusAction::AskAlive,
                attached: false,
                brought: false,
            };
            let asked = start.next(FocusReply::Done(alive));
            let tried = asked.next(FocusReply::Done(at_once));
            let looked = tried.next(FocusReply::InFront { there, hangs });
            let threads = looked.next(FocusReply::Threads { in_front, own });
            let attached = threads.next(FocusReply::Done(joined));
            let again = attached.next(FocusReply::Done(then));
            let end = again.next(FocusReply::Done(parted));
            let other_try = alive && !at_once && there && !hangs && in_front != 0 && in_front
                != own;
            &&& end.action == FocusAction::Finish(alive && (at_once || (other_try && then)))
            &&& alive ==> asked.action is BringForward
            &&& alive && !at_once ==> tried.action is LookInFront
            &&& alive && !at_once && there && !hangs ==> looked.action is AskThreads
            &&& other_try ==> threads.action is Attach && attached.action is BringForwardJoined
                && attached.attached == joined
            &&& other_try && joined ==> again.action is Detach
            &&& other_try && !joined ==> again.action == FocusAction::Finish(then)
        }),
{
}

/// An answer to something that was not asked changes nothing.
pub proof fn stray_answer_changes_nothing(step: FocusStep, reply: FocusReply)
    requires
        step.action is Finish || (step.action is LookInFront && !(reply is InFront)) || (
        step.action is AskThreads && !(reply is Threads)) || (!(step.action is LookInFront) && !(
        step.action is AskThreads) && !(reply is Done)),
    ensures
        step.next(reply) == step,
{
}

/// A window's edges are its corner and, its width to the right and its height
/// down, the opposite corner.
pub proof fn edges_are_a_width_and_a_height_apart(r: WindowRect)
    ensures
        edges_of_window(r).left == r.x,
        edges_of_window(r).top == r.y,
        i32::MIN <= r.x + r.w <= i32::MAX ==> edges_of_window(r).right - edges_of_window(r).left
            == r.w,
        i32::MIN <= r.y + r.h <= i32::MAX ==> edges_of_window(r).bottom - edges_of_window(r).top
            == r.h,
        r.x + r.w > i32::MAX ==> edges_of_window(r).right == i32::MAX,
        r.y + r.h > i32::MAX ==> edges_of_window(r).bottom == i32::MAX,
{
}

/// An edge that would lie before all coordinates is held at the first one.
pub proof fn edges_are_held_at_the_first_coordinate(r: WindowRect)
    ensures
        r.x + r.w < i32::MIN ==> edges_of_window(r).right == i32::MIN,
        r.y + r.h < i32::MIN ==> edges_of_window(r).bottom == i32::MIN,
{
}

} // verus!
