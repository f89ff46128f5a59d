//! Global shortcuts.

use vstd::prelude::*;

pub mod display;
pub mod grammar;
pub mod groups;
pub mod registration;

pub use groups::{
    all_hotkey_combos, group_hotkey_combos, group_open_combos, GROUP_DELETE_HOTKEY_ID,
    GROUP_MENU_HOTKEY_ID, GROUP_OPEN_HOTKEY_ID_BASE, UNPIN_ALL_HOTKEY_ID,
};
pub use registration::{
    message_hotkey_id, HotkeyRegistrationConflict, RegisteredHotkey, RegisteredHotkeySet,
};

verus! {

/// A shortcut: modifiers and a key.
#[derive(Debug, Clone, Copy, PartialEq, Eq, Structural)]
pub struct HotkeyCombo {
    pub ctrl: bool,
    pub alt: bool,
    pub shift: bool,
    pub win: bool,
    /// The key's virtual code.
    pub vk: u32,
}

} // verus!
