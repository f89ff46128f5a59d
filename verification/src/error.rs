//! What can go wrong between the application and the system.

use vstd::prelude::*;

use crate::clipboard::DibFault;

verus! {

/// A failure of one of the system's services.
#[derive(Debug, PartialEq, Eq)]
pub enum Win32Error {
    TrayWindowCreateFailed,
    TrayThreadCrashed,
    TrayNotifyIconFailed,
    OverlayWindowCreateFailed,
    OverlayThreadCrashed,
    WindowTrackerWindowCreateFailed,
    WindowTrackerThreadCrashed,
    KeyboardGuardThreadCrashed,
    KeyboardHookFailed,
    /// Another application has this shortcut.
    HotkeyConflict(String),
    /// This text names no shortcut.
    InvalidHotkey(String),
    ClipboardBusy,
    ClipboardDataCorrupt(DibFault),
    FileDialogPathInvalid,
    PinWindowGone,
    AlreadyPinned,
    PinAccessDenied,
    VirtualDesktopManagerUnavailable(String),
    /// A second instance could not be started, with the system's code.
    SiblingSpawnFailed(i32),
    /// The registry refused, with the system's code.
    Registry(i32),
    /// The system refused, with its result code.
    Win32(i32),
}

/// A system error code as a result code: zero and codes that are already
/// results stay as they are, the others go into the space set aside for them.
pub open spec fn result_code(code: u32) -> i32 {
    if (code as i32) <= 0 {
        code as i32
    } else {
        ((code & 0xFFFF) | 0x8007_0000) as i32
    }
}

/// A system error code as a result code.
pub fn hresult_from_win32(code: u32) -> (r: i32)
    ensures
        r == result_code(code),
{
    if code as i32 <= 0 {
        code as i32
    } else {
        ((code & 0xFFFF) | 0x8007_0000) as i32
    }
}

/// Codes that fit the space set aside for them stay apart as result codes, and
/// each of them is a failure.
pub proof fn result_codes_are_distinct(a: u32, b: u32)
    requires
        0 < a <= 0xFFFF,
        0 < b <= 0xFFFF,
        a != b,
    ensures
        result_code(a) != result_code(b),
        result_code(a) < 0,
{
    assert((a as i32) > 0i32 && ((a & 0xFFFF) | 0x8007_0000) as i32 != ((b & 0xFFFF) | 0x8007_0000)
        as i32 && (((a & 0xFFFF) | 0x8007_0000) as i32) < 0i32 && (b as i32) > 0i32)
        by (bit_vector)
        requires
            0 < a <= 0xFFFF,
            0 < b <= 0xFFFF,
            a != b,
    ;
}

/// A system error code becomes the result code that is its low word above
/// 0x80070000, which read with its sign lies 0x7FF90000 below it; zero and codes
/// whose highest bit is set keep their bits.
pub proof fn result_code_by_number(code: u32)
    ensures
        0 < code <= 0xFFFF ==> result_code(code) == code - 0x7FF9_0000,
        0xFFFF < code <= 0x7FFF_FFFF ==> result_code(code) == code % 0x1_0000 - 0x7FF9_0000,
        code == 0 ==> result_code(code) == 0,
        code > 0x7FFF_FFFF ==> result_code(code) == code - 0x1_0000_0000,
{
    assert(code > 0x7FFF_FFFFu32 ==> (code as i32) + 0x1_0000_0000 == code && (code as i32) < 0i32)
        by (bit_vector);
    assert(0 < code <= 0x7FFF_FFFFu32 ==> (code as i32) > 0i32 && (((code & 0xFFFF) | 0x8007_0000)
        as i32) + 0x7FF9_0000 == code % 0x1_0000) by (bit_vector);
    assert(code == 0u32 ==> (code as i32) == 0i32) by (bit_vector);
}

} // verus!
