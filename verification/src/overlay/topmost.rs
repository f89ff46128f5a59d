//! Keeping an overlay above the other windows that want to be above.

use vstd::prelude::*;

use crate::model::Edges;

verus! {

/// The timer on which the overlay looks whether it is still on top.
pub const TOPMOST_TIMER_ID: usize = 1;

pub const TOPMOST_TIMER_MS: u32 = 400;

/// A window smaller than this on a side covers nothing worth fighting for.
pub const TOPMOST_MIN_INTRUDER_PX: i32 = 8;

/// How often in a row the same window may win before it is left alone.
pub const TOPMOST_WAR_STRIKES: u32 = 8;

/// The fight for the top, one tick at a time.
#[derive(Debug, Clone, Copy, PartialEq, Eq, Structural)]
pub struct TopmostGuard {
    /// The window that was above on the last tick.
    pub last: Option<usize>,
    /// On how many ticks in a row.
    pub strikes: u32,
    /// The window that the top was left to.
    pub surrendered: Option<usize>,
}

impl Default for TopmostGuard {
    fn default() -> (r: Self)
        ensures
            r == Self::peace(),
    {
        Self { last: None, strikes: 0, surrendered: None }
    }
}

impl TopmostGuard {
    /// No fight.
    pub open spec fn peace() -> Self {
        TopmostGuard { last: None, strikes: 0, surrendered: None }
    }

    /// Past the limit the top has been left to the window in question.
    pub open spec fn well_formed(self) -> bool {
        &&& self.strikes <= TOPMOST_WAR_STRIKES + 1
        &&& self.strikes > TOPMOST_WAR_STRIKES ==> self.surrendered is Some && self.surrendered
            == self.last
    }

    /// The fight as it stands when a window is found above: a new one starts a
    /// new fight.
    pub open spec fn facing(self, hwnd: usize) -> Self {
        if self.last == Some(hwnd) {
            self
        } else {
            TopmostGuard { last: Some(hwnd), strikes: 0, surrendered: None }
        }
    }

    /// Whether to come back to the top on this tick.
    pub open spec fn fights(self, intruder: Option<usize>) -> bool {
        match intruder {
            Some(hwnd) => self.facing(hwnd).surrendered != Some(hwnd) && self.facing(hwnd).strikes
                < TOPMOST_WAR_STRIKES,
            None => false,
        }
    }

    /// The fight after this tick.
    pub open spec fn after(self, intruder: Option<usize>) -> Self {
        match intruder {
            Some(hwnd) => {
                let f = self.facing(hwnd);
                if f.surrendered == Some(hwnd) {
                    f
                } else if f.strikes < TOPMOST_WAR_STRIKES {
                    TopmostGuard { strikes: (f.strikes + 1) as u32, ..f }
                } else {
                    TopmostGuard {
                        strikes: (f.strikes + 1) as u32,
                        surrendered: Some(hwnd),
                        ..f
                    }
                }
            },
            None => Self::peace(),
        }
    }

    /// Decide whether to come back to the top. `intruder` is a foreign window
    /// above that covers the overlay. One that comes back again and again is
    /// left alone, or the two would take turns forever.
    pub fn decide(&mut self, intruder: Option<usize>) -> (r: bool)
        requires
            old(self).well_formed(),
        ensures
            final(self).well_formed(),
            r == old(self).fights(intruder),
            *final(self) == old(self).after(intruder),
    {
        let hwnd: usize = match intruder {
            Some(hwnd) => hwnd,
            None => {
                self.last = None;
                self.strikes = 0;
                self.surrendered = None;
                return false;
            },
        };
        let same = match self.last {
            Some(last) => last == hwnd,
            None => false,
        };
        if !same {
            self.last = Some(hwnd);
            self.strikes = 0;
            self.surrendered = None;
        }
        if let Some(left_to) = self.surrendered {
            if left_to == hwnd {
                return false;
            }
        }
        self.strikes = self.strikes + 1;
        if self.strikes > TOPMOST_WAR_STRIKES {
            self.surrendered = Some(hwnd);
            return false;
        }
        true
    }
}

/// The state after the same window was above on `n` ticks.
pub open spec fn after_ticks(g: TopmostGuard, hwnd: usize, n: nat) -> TopmostGuard
    decreases n,
{
    if n == 0 {
        g
    } else {
        after_ticks(g, hwnd, (n - 1) as nat).after(Some(hwnd))
    }
}

proof fn ticks_count(hwnd: usize, n: nat)
    ensures
        ({
            let g = after_ticks(TopmostGuard::peace(), hwnd, n);
            &&& n == 0 ==> g == TopmostGuard::peace()
            &&& 1 <= n <= TOPMOST_WAR_STRIKES ==> g == (TopmostGuard {
                last: Some(hwnd),
                strikes: n as u32,
                surrendered: None,
            })
            &&& n > TOPMOST_WAR_STRIKES ==> g == (TopmostGuard {
                last: Some(hwnd),
                strikes: (TOPMOST_WAR_STRIKES + 1) as u32,
                surrendered: Some(hwnd),
            })
        }),
    decreases n,
{
    if n > 0 {
        ticks_count(hwnd, (n - 1) as nat);
    }
}

/// A window that keeps coming back is fought as often as the limit says and not
/// once more; one tick without it, or another window, and the fight may start
/// over.
pub proof fn war_comes_to_an_end(hwnd: usize, other: usize, n: nat)
    ensures
        ({
            let g = after_ticks(TopmostGuard::peace(), hwnd, n);
            &&& g.fights(Some(hwnd)) <==> n < TOPMOST_WAR_STRIKES
            &&& !g.fights(None)
            &&& g.after(None).fights(Some(hwnd))
            &&& other != hwnd ==> g.fights(Some(other))
        }),
{
    ticks_count(hwnd, n);
}

/// Another window lies over part of the overlay, and is large enough to matter.
pub open spec fn covers(ours: Edges, other: Edges) -> bool {
    &&& other.right - other.left >= TOPMOST_MIN_INTRUDER_PX
    &&& other.bottom - other.top >= TOPMOST_MIN_INTRUDER_PX
    &&& other.left < ours.right
    &&& other.right > ours.left
    &&& other.top < ours.bottom
    &&& other.bottom > ours.top
}

/// A rectangle by its left, top, right and bottom edge.
pub open spec fn edges_of(r: (i32, i32, i32, i32)) -> Edges {
    Edges { left: r.0, top: r.1, right: r.2, bottom: r.3 }
}

/// Whether another window lies over part of the overlay, and is large enough to
/// matter; each by its left, top, right and bottom edge.
pub fn intruder_covers(ours: (i32, i32, i32, i32), other: (i32, i32, i32, i32)) -> (r: bool)
    ensures
        r == covers(edges_of(ours), edges_of(other)),
{
    let (l, t, r, b) = other;
    if (r as i64 - l as i64) < TOPMOST_MIN_INTRUDER_PX as i64 || (b as i64 - t as i64)
        < TOPMOST_MIN_INTRUDER_PX as i64 {
        return false;
    }
    let (ol, ot, or, ob) = ours;
    l < or && r > ol && t < ob && b > ot
}

/// What the system tells of a window above the overlay.
#[derive(Debug, Clone, Copy, PartialEq, Eq, Structural)]
pub struct WindowFacts {
    pub hwnd: usize,
    pub visible: bool,
    /// The process that it belongs to.
    pub pid: u32,
    /// Its edges, where they can be read.
    pub edges: Option<Edges>,
    /// Whether it is hidden though it counts as visible, where that can be
    /// read; zero is not.
    pub cloaked: Option<u32>,
}

/// A foreign window that is seen over the overlay.
pub open spec fn intrudes(w: WindowFacts, our_pid: u32, ours: Edges) -> bool {
    &&& w.visible
    &&& w.pid != our_pid
    &&& w.edges matches Some(other) && covers(ours, other)
    &&& !(w.cloaked matches Some(c) && c != 0)
}

/// Whether a window is a foreign one that is seen over the overlay.
pub fn covers_overlay(w: &WindowFacts, our_pid: u32, ours: Edges) -> (r: bool)
    ensures
        r == intrudes(*w, our_pid, ours),
{
    if !w.visible || w.pid == our_pid {
        return false;
    }
    match w.edges {
        Some(other) => {
            if !intruder_covers(
                (ours.left, ours.top, ours.right, ours.bottom),
                (other.left, other.top, other.right, other.bottom),
            ) {
                return false;
            }
        },
        None => {
            return false;
        },
    }
    match w.cloaked {
        Some(c) => c == 0,
        None => true,
    }
}

/// `hwnd` is the first of these windows that intrudes.
pub open spec fn first_intruder(
    above: Seq<WindowFacts>,
    our_pid: u32,
    ours: Edges,
    hwnd: usize,
) -> bool {
    exists|i: int|
        {
            &&& 0 <= i < above.len()
            &&& intrudes(#[trigger] above[i], our_pid, ours)
            &&& above[i].hwnd == hwnd
            &&& forall|j: int| 0 <= j < i ==> !intrudes(#[trigger] above[j], our_pid, ours)
        }
}

/// The nearest window above the overlay that intrudes; `above` lists the
/// windows from the overlay upward.
pub fn intruder_above(above: &Vec<WindowFacts>, our_pid: u32, ours: Edges) -> (r: Option<usize>)
    ensures
        match r {
            Some(hwnd) => first_intruder(above@, our_pid, ours, hwnd),
            None => forall|i: int|
                0 <= i < above@.len() ==> !intrudes(#[trigger] above@[i], our_pid, ours),
        },
{
    let mut i: usize = 0;
    while i < above.len()
        invariant
            i <= above.len(),
            forall|j: int| 0 <= j < i ==> !intrudes(#[trigger] above@[j], our_pid, ours),
        decreases above.len() - i,
    {
        if covers_overlay(&above[i], our_pid, ours) {
            assert(intrudes(above@[i as int], our_pid, ours));
            return Some(above[i].hwnd);
        }
        i = i + 1;
    }
    None
}

/// Whether one of the application's own pinned windows is above the overlay, so
/// that what is drawn over it would be hidden.
pub fn raise_above_pinned(above: &Vec<usize>, pinned: &Vec<usize>) -> (r: bool)
    ensures
        r == exists|hwnd: usize| #[trigger] above@.contains(hwnd) && pinned@.contains(hwnd),
{
    let mut i: usize = 0;
    while i < above.len()
        invariant
            i <= above.len(),
            forall|j: int| 0 <= j < i ==> !pinned@.contains(#[trigger] above@[j]),
        decreases above.len() - i,
    {
        let mut k: usize = 0;
        while k < pinned.len()
            invariant
                i < above.len(),
                k <= pinned.len(),
                forall|j: int| 0 <= j < k ==> pinned@[j] != above@[i as int],
            decreases pinned.len() - k,
        {
            if pinned[k] == above[i] {
                assert(above@.contains(above@[i as int]));
                assert(pinned@.contains(above@[i as int]));
                return true;
            }
            k = k + 1;
        }
        i = i + 1;
    }
    false
}

/// A window covers part of another where it is at least eight pixels wide and
/// high and the two have a point in common.
pub proof fn covering_is_sharing_a_point(
    ours: (i32, i32, i32, i32),
    other: (i32, i32, i32, i32),
)
    requires
        ours.0 < ours.2,
        ours.1 < ours.3,
    ensures
        covers(edges_of(ours), edges_of(other)) <==> other.2 - other.0 >= 8 && other.3 - other.1
            >= 8 && exists|x: int, y: int|
            #![trigger in_both(ours, other, x, y)]
            in_both(ours, other, x, y),
{
    if covers(edges_of(ours), edges_of(other)) {
        let x = if ours.0 >= other.0 {
            ours.0 as int
        } else {
            other.0 as int
        };
        let y = if ours.1 >= other.1 {
            ours.1 as int
        } else {
            other.1 as int
        };
        assert(in_both(ours, other, x, y));
    }
}

/// A point in both of two rectangles, each by its left, top, right and bottom
/// edge.
pub open spec fn in_both(
    a: (i32, i32, i32, i32),
    b: (i32, i32, i32, i32),
    x: int,
    y: int,
) -> bool {
    &&& a.0 <= x < a.2 && a.1 <= y < a.3
    &&& b.0 <= x < b.2 && b.1 <= y < b.3
}

/// An intruder is in view, of another process, over the overlay, and not hidden
/// by the compositor.
pub proof fn intruder_is_seen_and_foreign(w: WindowFacts, our_pid: u32, ours: Edges)
    ensures
        intrudes(w, our_pid, ours) ==> w.visible && w.pid != our_pid && w.edges is Some
            && w.cloaked != Some(1u32),
        w.visible && w.pid != our_pid && w.edges is Some && covers(ours, w.edges->0) && (
        w.cloaked is None || w.cloaked == Some(0u32)) ==> intrudes(w, our_pid, ours),
        w.cloaked is Some && w.cloaked->0 > 0 ==> !intrudes(w, our_pid, ours),
        w.edges is Some && !covers(ours, w.edges->0) ==> !intrudes(w, our_pid, ours),
{
}

/// A window that is above on tick after tick is fought eight times, and then it
/// is left alone until it is gone for a tick.
pub proof fn same_window_is_fought_eight_times(hwnd: usize, n: nat)
    ensures
        after_ticks(TopmostGuard::peace(), hwnd, n).fights(Some(hwnd)) <==> n < 8,
        after_ticks(TopmostGuard::peace(), hwnd, n).after(None) == (TopmostGuard {
            last: None,
            strikes: 0,
            surrendered: None,
        }),
        TopmostGuard::peace() == (TopmostGuard { last: None, strikes: 0, surrendered: None }),
{
    war_comes_to_an_end(hwnd, hwnd, n);
}

/// The intruder that is found is the nearest: no window between it and the overlay
/// is one.
pub proof fn nearest_intruder_is_found(
    above: Seq<WindowFacts>,
    our_pid: u32,
    ours: Edges,
    i: int,
    hwnd: usize,
)
    requires
        0 <= i < above.len(),
        intrudes(above[i], our_pid, ours),
        forall|j: int| 0 <= j < i ==> !intrudes(#[trigger] above[j], our_pid, ours),
    ensures
        first_intruder(above, our_pid, ours, hwnd) <==> hwnd == above[i].hwnd,
{
}

/// The fight tick by tick: a window that was not above before is fought at once and
/// counts its first strike, whatever went before; no window above ends the fight and
/// is not fought.
pub proof fn new_window_starts_a_new_fight(g: TopmostGuard, hwnd: usize)
    ensures
        g.last != Some(hwnd) ==> g.fights(Some(hwnd)) && g.after(Some(hwnd)) == (TopmostGuard {
            last: Some(hwnd),
            strikes: 1,
            surrendered: None,
        }),
        !g.fights(None),
        g.after(None) == (TopmostGuard { last: None, strikes: 0, surrendered: None }),
        g.last == Some(hwnd) && g.surrendered == Some(hwnd) ==> !g.fights(Some(hwnd)) && g.after(
            Some(hwnd),
        ) == g,
        g.last == Some(hwnd) && g.surrendered is None && g.strikes < 8 ==> g.fights(Some(hwnd))
            && g.after(Some(hwnd)).strikes == g.strikes + 1 && g.after(
            Some(hwnd),
        ).surrendered is None,
        g.last == Some(hwnd) && g.surrendered is None && g.strikes == 8 ==> !g.fights(Some(hwnd))
            && g.after(Some(hwnd)).surrendered == Some(hwnd),
{
}

} // verus!
