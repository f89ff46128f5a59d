//! Plain data shared with the rest of the application.

use vstd::prelude::*;

verus! {

/// A rectangle in physical pixels of the virtual desktop.
#[derive(Debug, Clone, Copy, PartialEq, Eq, Structural)]
pub struct Rect {
    pub x: i32,
    pub y: i32,
    pub w: u32,
    pub h: u32,
}

/// A rectangle by its four edges, as window calls report and take it.
#[derive(Debug, Clone, Copy, PartialEq, Eq, Structural)]
pub struct Edges {
    pub left: i32,
    pub top: i32,
    pub right: i32,
    pub bottom: i32,
}

/// The length of a span, nothing for a span that is turned over.
pub open spec fn span(from: i32, to: i32) -> u32 {
    if to > from {
        (to - from) as u32
    } else {
        0
    }
}

impl Edges {
    /// The rectangle between the edges; a rectangle that is turned over has no
    /// extent on that axis.
    pub open spec fn spec_rect(self) -> Rect {
        Rect {
            x: self.left,
            y: self.top,
            w: span(self.left, self.right),
            h: span(self.top, self.bottom),
        }
    }

    /// The rectangle between the edges; a rectangle that is turned over has no
    /// extent on that axis.
    pub fn to_rect(&self) -> (r: Rect)
        ensures
            r == self.spec_rect(),
    {
        let w: u32 = if self.right > self.left {
            (self.right as i64 - self.left as i64) as u32
        } else {
            0
        };
        let h: u32 = if self.bottom > self.top {
            (self.bottom as i64 - self.top as i64) as u32
        } else {
            0
        };
        Rect { x: self.left, y: self.top, w, h }
    }
}

/// What a monitor is known by for good: the path of its device.
#[derive(Debug, PartialEq, Eq)]
pub struct MonitorId(pub String);

impl Clone for MonitorId {
    fn clone(&self) -> (r: Self)
        ensures
            r == *self,
    {
        MonitorId(self.0.clone())
    }
}

/// How many groups can have a shortcut of their own.
pub const GROUP_OPEN_SLOTS: usize = 9;

/// The shortcuts that the settings assign, each as text. One that is not
/// assigned is missing.
#[derive(Debug, PartialEq, Eq)]
pub struct Hotkeys {
    pub edit_mode: Option<String>,
    pub toggle_all_stickers: Option<String>,
    pub mute_all: Option<String>,
    pub pin_focused_window: Option<String>,
    pub edit_groups_menu: Option<String>,
    pub delete_open_group: Option<String>,
    pub unpin_all: Option<String>,
    /// The shortcuts that open groups, the first group first.
    pub open_group_by_number: Vec<Option<String>>,
}

/// The characters of a text that may be missing.
pub open spec fn assigned_text(text: Option<String>) -> Option<Seq<char>> {
    match text {
        Some(t) => Some(t@),
        None => None,
    }
}

impl Hotkeys {
    /// The shortcut that opens group `n`, counted from one.
    pub open spec fn open_group_text(self, n: int) -> Option<Seq<char>> {
        if 1 <= n <= GROUP_OPEN_SLOTS && n <= self.open_group_by_number@.len() {
            assigned_text(self.open_group_by_number@[n - 1])
        } else {
            None
        }
    }

    /// The shortcut that opens group `n`, counted from one.
    pub fn open_group(&self, n: usize) -> (r: &Option<String>)
        ensures
            assigned_text(*r) == self.open_group_text(n as int),
    {
        if n >= 1 && n <= GROUP_OPEN_SLOTS && n <= self.open_group_by_number.len() {
            &self.open_group_by_number[n - 1]
        } else {
            &None
        }
    }
}

/// A rectangle by its edges begins at its left and top edge and reaches to the
/// right and the bottom one; one that is turned over on an axis has no extent
/// there.
pub proof fn rectangle_reaches_to_its_edges(e: Edges)
    ensures
        e.spec_rect().x == e.left,
        e.spec_rect().y == e.top,
        e.left <= e.right ==> e.spec_rect().x + e.spec_rect().w == e.right,
        e.top <= e.bottom ==> e.spec_rect().y + e.spec_rect().h == e.bottom,
        e.left > e.right ==> e.spec_rect().w == 0,
        e.top > e.bottom ==> e.spec_rect().h == 0,
        span(e.left, e.right) == e.spec_rect().w,
        span(e.top, e.bottom) == e.spec_rect().h,
{
}

} // verus!
