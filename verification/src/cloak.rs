//! Windows hidden by the compositor, and the mark by which they are found
//! again.

use vstd::prelude::*;

verus! {

/// The mark on a window that is hidden.
pub const CLOAK_PROP: &'static str = "resticker.tiling.cloaked";

/// What is to be done next about a window.
#[derive(Debug, Clone, Copy, PartialEq, Eq, Structural)]
pub enum CloakAction {
    /// Ask whether there is such a window.
    AskAlive,
    SetMark,
    /// Hide it, or show it again.
    SetCloaked(bool),
    RemoveMark,
    /// It is over, with this outcome.
    Finish(bool),
}

/// How far the hiding or showing of a window has come: what was last asked for.
#[derive(Debug, Clone, Copy, PartialEq, Eq, Structural)]
pub struct CloakStep {
    /// Whether the window is to be hidden, or shown again.
    pub hide: bool,
    pub action: CloakAction,
}

impl CloakStep {
    /// What follows when what was asked for succeeded or failed. A window is
    /// marked before it is hidden and shown before its mark goes, so that one
    /// that is hidden can always be found again; a window that could not be
    /// hidden loses its mark, and one that could not be shown keeps it.
    pub open spec fn next(self, success: bool) -> CloakStep {
        let action = match self.action {
            CloakAction::AskAlive => if !success {
                CloakAction::Finish(false)
            } else if self.hide {
                CloakAction::SetMark
            } else {
                CloakAction::SetCloaked(false)
            },
            CloakAction::SetMark => if success {
                CloakAction::SetCloaked(true)
            } else {
                CloakAction::Finish(false)
            },
            CloakAction::SetCloaked(hidden) => if hidden {
                if success {
                    CloakAction::Finish(true)
                } else {
                    CloakAction::RemoveMark
                }
            } else if success {
                CloakAction::RemoveMark
            } else {
                CloakAction::Finish(false)
            },
            CloakAction::RemoveMark => CloakAction::Finish(!self.hide),
            CloakAction::Finish(outcome) => CloakAction::Finish(outcome),
        };
        CloakStep { hide: self.hide, action }
    }

    /// Take up whether what was asked for succeeded.
    pub fn advance(&mut self, success: bool)
        ensures
            *final(self) == old(self).next(success),
    {
        self.action =
        match self.action {
            CloakAction::AskAlive => if !success {
                CloakAction::Finish(false)
            } else if self.hide {
                CloakAction::SetMark
            } else {
                CloakAction::SetCloaked(false)
            },
            CloakAction::SetMark => if success {
                CloakAction::SetCloaked(true)
            } else {
                CloakAction::Finish(false)
            },
            CloakAction::SetCloaked(hidden) => if hidden {
                if success {
                    CloakAction::Finish(true)
                } else {
                    CloakAction::RemoveMark
                }
            } else if success {
                CloakAction::RemoveMark
            } else {
                CloakAction::Finish(false)
            },
            CloakAction::RemoveMark => CloakAction::Finish(!self.hide),
            CloakAction::Finish(outcome) => CloakAction::Finish(outcome),
        };
    }
}

/// Hide a window.
pub fn cloak() -> (r: CloakStep)
    ensures
        r == (CloakStep { hide: true, action: CloakAction::AskAlive }),
{
    CloakStep { hide: true, action: CloakAction::AskAlive }
}

/// Show a window again.
pub fn uncloak() -> (r: CloakStep)
    ensures
        r == (CloakStep { hide: false, action: CloakAction::AskAlive }),
{
    CloakStep { hide: false, action: CloakAction::AskAlive }
}

/// Whether a window is marked, by what is read from it: nothing is zero.
pub fn is_marked(mark: usize) -> (r: bool)
    ensures
        r == (mark != 0),
{
    mark != 0
}

/// How many of the outcomes are good.
pub open spec fn good(outcomes: Seq<bool>) -> nat
    decreases outcomes.len(),
{
    if outcomes.len() == 0 {
        0
    } else {
        good(outcomes.drop_last()) + if outcomes.last() {
            1nat
        } else {
            0
        }
    }
}

proof fn good_is_bounded(outcomes: Seq<bool>)
    ensures
        good(outcomes) <= outcomes.len(),
    decreases outcomes.len(),
{
    if outcomes.len() > 0 {
        good_is_bounded(outcomes.drop_last());
    }
}

/// How many windows came back, of those that an earlier run had left marked.
pub fn recover_orphans(outcomes: &Vec<bool>) -> (r: usize)
    ensures
        r == good(outcomes@),
{
    let mut recovered: usize = 0;
    let mut i: usize = 0;
    assert(outcomes@.take(0) =~= Seq::<bool>::empty());
    while i < outcomes.len()
        invariant
            i <= outcomes@.len(),
            recovered <= i,
            recovered == good(outcomes@.take(i as int)),
        decreases outcomes.len() - i,
    {
        assert(outcomes@.take(i + 1).drop_last() =~= outcomes@.take(i as int));
        if outcomes[i] {
            recovered = recovered + 1;
        }
        i = i + 1;
    }
    assert(outcomes@.take(outcomes@.len() as int) =~= outcomes@);
    recovered
}

/// A window as it stands: whether it is hidden, and whether it is marked.
pub struct Standing {
    pub hidden: bool,
    pub marked: bool,
}

impl Standing {
    /// The window after an action that succeeded or failed.
    pub open spec fn after(self, action: CloakAction, success: bool) -> Standing {
        match action {
            CloakAction::SetMark => Standing { marked: self.marked || success, ..self },
            CloakAction::SetCloaked(hidden) => if success {
                Standing { hidden, ..self }
            } else {
                self
            },
            CloakAction::RemoveMark => Standing { marked: self.marked && !success, ..self },
            _ => self,
        }
    }
}

/// The window in the middle of being hidden or shown.
pub open spec fn midway(step: CloakStep, w: Standing) -> bool {
    &&& w.hidden ==> w.marked
    &&& step.action is SetCloaked && step.hide ==> w.marked && !w.hidden
    &&& step.action == CloakAction::SetCloaked(true) ==> step.hide
    &&& step.action == CloakAction::SetCloaked(false) ==> !step.hide
    &&& step.action is SetMark ==> step.hide
    &&& step.action is RemoveMark ==> !w.hidden
    &&& (step.action is AskAlive || step.action is SetMark) && step.hide ==> !w.hidden
    &&& step.action == CloakAction::Finish(true) ==> w.hidden == step.hide
}

/// At no moment is a window hidden without a mark, whatever succeeds and
/// whatever fails on the way: should the application end there, the window can
/// still be found. Once it is over with a good outcome, the window is as it was
/// asked to be.
pub proof fn hidden_window_is_marked(step: CloakStep, w: Standing, success: bool)
    requires
        midway(step, w),
        !(step.action is Finish),
    ensures
        midway(step.next(success), w.after(step.action, success)),
{
}

/// Both ways start from a window that stands as it should: one to be hidden is
/// in view, one to be shown may be either.
pub proof fn ways_start_well(w: Standing)
    requires
        w.hidden ==> w.marked,
    ensures
        !w.hidden ==> midway(CloakStep { hide: true, action: CloakAction::AskAlive }, w),
        midway(CloakStep { hide: false, action: CloakAction::AskAlive }, w),
{
}

/// How the hiding of a window ends, by what succeeds on the way: well where the
/// window is there, takes the mark and is hidden. It is marked before it is hidden,
/// and the mark is taken off again only where the hiding fails.
pub proof fn hiding_goes_by_what_succeeds(alive: bool, marked: bool, hidden: bool, cleared: bool)
    ensures
        ({
            let start = CloakStep { hide: true, action: CloakAction::AskAlive };
            let asked = start.next(alive);
            let mark = asked.next(marked);
            let hide = mark.next(hidden);
            let end = hide.next(cleared);
            &&& alive ==> asked.action is SetMark
            &&& alive && marked ==> mark.action == CloakAction::SetCloaked(true)
            &&& alive && marked && !hidden ==> hide.action is RemoveMark
            &&& alive && marked && hidden ==> hide.action == CloakAction::Finish(true)
            &&& end.action == CloakAction::Finish(alive && marked && hidden)
        }),
{
}

/// How the showing of a window ends: well where the window is there and is shown,
/// whether its mark comes off or not; the mark is touched only once it is shown.
pub proof fn showing_goes_by_what_succeeds(alive: bool, shown: bool, cleared: bool)
    ensures
        ({
            let start = CloakStep { hide: false, action: CloakAction::AskAlive };
            let asked = start.next(alive);
            let show = asked.next(shown);
            let end = show.next(cleared);
            &&& alive ==> asked.action == CloakAction::SetCloaked(false)
            &&& alive && shown ==> show.action is RemoveMark
            &&& alive && !shown ==> show.action == CloakAction::Finish(false)
            &&& end.action == CloakAction::Finish(alive && shown)
        }),
{
}

/// Each window that comes back counts one, and none other does.
pub proof fn windows_that_come_back_are_counted(outcomes: Seq<bool>, outcome: bool)
    ensures
        outcome ==> good(outcomes.push(outcome)) == good(outcomes) + 1,
        !outcome ==> good(outcomes.push(outcome)) == good(outcomes),
        good(Seq::empty()) == 0,
{
    assert(outcomes.push(outcome).drop_last() =~= outcomes);
}

} // verus!
