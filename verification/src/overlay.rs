//! The overlay window: transparent, above everything, one for each monitor.

use vstd::prelude::*;

use crate::hotkey::HotkeyRegistrationConflict;
use crate::input::{InputEvent, Modifiers};
use crate::monitors::MonitorInfo;

pub mod codes;
pub mod conduct;
pub mod hotkeys;
pub mod laws;
pub mod messages;
pub mod style;
pub mod topmost;

pub use crate::hotkey::groups::all_hotkey_combos;
pub use codes::char_from_wm_char;
pub use topmost::{intruder_covers, TopmostGuard};

verus! {

/// A shortcut that is reported by name where another application has it.
#[derive(Debug, Clone, Copy, PartialEq, Eq, Structural)]
pub enum HotkeyName {
    EditMode,
    ToggleAllStickers,
    MuteAll,
    PinFocusedWindow,
    WindowMitosis,
    WindowCrop,
}

/// How an overlay window takes the mouse.
#[derive(Debug, Clone, PartialEq, Eq)]
pub enum OverlayInputPolicy {
    /// Not at all: the mouse goes through to the windows below.
    Transparent,
    /// Everywhere. At most one window at a time may also take the focus.
    Interactive { take_focus: bool },
    /// Only in these rectangles, each by its corner and its size in client
    /// coordinates; elsewhere it goes through. The mouse is never held.
    HitRects(Vec<(i32, i32, i32, i32)>),
    /// Everywhere, without the focus, and the mouse may be held.
    HoverTarget,
}

/// What an overlay window tells the rest of the application.
#[derive(Debug, PartialEq, Eq)]
pub enum OverlayEvent {
    ToggleEditMode,
    ToggleAllStickers,
    ToggleMuteAll,
    PinFocusedWindow,
    ToggleGroupsMenu,
    DeleteOpenGroup,
    /// Open the group with this number.
    OpenGroup(u8),
    UnpinAll,
    PinTogglePressed,
    MediaPlayPause,
    MediaVolumeUp,
    MediaVolumeDown,
    /// Another application has this shortcut; its text comes with it.
    HotkeyConflict(HotkeyName, String),
    /// The shortcuts were replaced: so many were granted, and these not.
    HotkeysReloaded { registered: usize, conflicts: Vec<HotkeyRegistrationConflict> },
    /// The window moved to a monitor of another density, or the density
    /// changed. It has its new size already.
    DpiChanged { dpi: u32, size: (u32, u32) },
    /// The mouse, in client coordinates.
    Input(InputEvent),
    /// A key went down or up while the window had the focus.
    Key { vk: u32, modifiers: Modifiers, pressed: bool },
    /// A character was typed.
    Char(char),
    /// The monitors are now these.
    MonitorsChanged(Vec<MonitorInfo>),
    SessionLocked,
    SessionUnlocked,
    SystemSuspending,
    SystemResumed,
    ToggleMitosisMode,
    ToggleWindowCropMode,
}

impl OverlayEvent {
    /// The two tell the same, lists item by item.
    pub open spec fn same(self, other: OverlayEvent) -> bool {
        match (self, other) {
            (
                OverlayEvent::HotkeysReloaded { registered: a, conflicts: c },
                OverlayEvent::HotkeysReloaded { registered: b, conflicts: d },
            ) => a == b && c@ == d@,
            (OverlayEvent::MonitorsChanged(a), OverlayEvent::MonitorsChanged(b)) => a@ == b@,
            _ => self == other,
        }
    }
}

impl Clone for OverlayEvent {
    fn clone(&self) -> (r: Self)
        ensures
            r.same(*self),
    {
        match self {
            OverlayEvent::ToggleEditMode => OverlayEvent::ToggleEditMode,
            OverlayEvent::ToggleAllStickers => OverlayEvent::ToggleAllStickers,
            OverlayEvent::ToggleMuteAll => OverlayEvent::ToggleMuteAll,
            OverlayEvent::PinFocusedWindow => OverlayEvent::PinFocusedWindow,
            OverlayEvent::ToggleGroupsMenu => OverlayEvent::ToggleGroupsMenu,
            OverlayEvent::DeleteOpenGroup => OverlayEvent::DeleteOpenGroup,
            OverlayEvent::UnpinAll => OverlayEvent::UnpinAll,
            OverlayEvent::PinTogglePressed => OverlayEvent::PinTogglePressed,
            OverlayEvent::MediaPlayPause => OverlayEvent::MediaPlayPause,
            OverlayEvent::MediaVolumeUp => OverlayEvent::MediaVolumeUp,
            OverlayEvent::MediaVolumeDown => OverlayEvent::MediaVolumeDown,
            OverlayEvent::SessionLocked => OverlayEvent::SessionLocked,
            OverlayEvent::SessionUnlocked => OverlayEvent::SessionUnlocked,
            OverlayEvent::SystemSuspending => OverlayEvent::SystemSuspending,
            OverlayEvent::SystemResumed => OverlayEvent::SystemResumed,
            OverlayEvent::ToggleMitosisMode => OverlayEvent::ToggleMitosisMode,
            OverlayEvent::ToggleWindowCropMode => OverlayEvent::ToggleWindowCropMode,
            OverlayEvent::OpenGroup(n) => OverlayEvent::OpenGroup(*n),
            OverlayEvent::HotkeyConflict(name, combo) => OverlayEvent::HotkeyConflict(
                *name,
                combo.clone(),
            ),
            OverlayEvent::HotkeysReloaded { registered, conflicts } => {
                let copied = conflicts.clone();
                assert(copied@ =~= conflicts@);
                OverlayEvent::HotkeysReloaded { registered: *registered, conflicts: copied }
            },
            OverlayEvent::DpiChanged { dpi, size } => OverlayEvent::DpiChanged {
                dpi: *dpi,
                size: (size.0, size.1),
            },
            OverlayEvent::Input(event) => OverlayEvent::Input(*event),
            OverlayEvent::Key { vk, modifiers, pressed } => OverlayEvent::Key {
                vk: *vk,
                modifiers: *modifiers,
                pressed: *pressed,
            },
            OverlayEvent::Char(c) => OverlayEvent::Char(*c),
            OverlayEvent::MonitorsChanged(monitors) => {
                let copied = monitors.clone();
                assert(copied@ =~= monitors@);
                OverlayEvent::MonitorsChanged(copied)
            },
        }
    }
}

} // verus!
