//! The numbers that the Windows headers give to messages, keys, styles and
//! error codes.

use vstd::prelude::*;

verus! {

pub const WM_DESTROY: u32 = 0x2;

pub const WM_ACTIVATE: u32 = 0x6;

pub const WM_PAINT: u32 = 0xf;

pub const WM_CLOSE: u32 = 0x10;

pub const WM_ERASEBKGND: u32 = 0x14;

pub const WM_CANCELMODE: u32 = 0x1f;

pub const WM_SETCURSOR: u32 = 0x20;

pub const WM_MOUSEACTIVATE: u32 = 0x21;

pub const WM_GETMINMAXINFO: u32 = 0x24;

pub const WM_WINDOWPOSCHANGED: u32 = 0x47;

pub const WM_DISPLAYCHANGE: u32 = 0x7e;

pub const WM_NCDESTROY: u32 = 0x82;

pub const WM_NCCALCSIZE: u32 = 0x83;

pub const WM_NCHITTEST: u32 = 0x84;

pub const WM_KEYDOWN: u32 = 0x100;

pub const WM_KEYUP: u32 = 0x101;

pub const WM_CHAR: u32 = 0x102;

pub const WM_SYSKEYDOWN: u32 = 0x104;

pub const WM_SYSKEYUP: u32 = 0x105;

pub const WM_TIMER: u32 = 0x113;

pub const WM_MOUSEMOVE: u32 = 0x200;

pub const WM_LBUTTONDOWN: u32 = 0x201;

pub const WM_LBUTTONUP: u32 = 0x202;

pub const WM_MOUSEWHEEL: u32 = 0x20a;

pub const WM_SIZING: u32 = 0x214;

pub const WM_CAPTURECHANGED: u32 = 0x215;

pub const WM_POWERBROADCAST: u32 = 0x218;

pub const WM_ENTERSIZEMOVE: u32 = 0x231;

pub const WM_EXITSIZEMOVE: u32 = 0x232;

pub const WM_MOUSELEAVE: u32 = 0x2a3;

pub const WM_WTSSESSION_CHANGE: u32 = 0x2b1;

pub const WM_DPICHANGED: u32 = 0x2e0;

pub const HTCLIENT: u32 = 1;

pub const HTLEFT: u32 = 10;

pub const HTRIGHT: u32 = 11;

pub const HTTOP: u32 = 12;

pub const HTTOPLEFT: u32 = 13;

pub const HTTOPRIGHT: u32 = 14;

pub const HTBOTTOM: u32 = 15;

pub const HTBOTTOMLEFT: u32 = 16;

pub const HTBOTTOMRIGHT: u32 = 17;

pub const HTTRANSPARENT: i32 = -1;

pub const WMSZ_LEFT: u32 = 1;

pub const WMSZ_RIGHT: u32 = 2;

pub const WMSZ_TOP: u32 = 3;

pub const WMSZ_TOPLEFT: u32 = 4;

pub const WMSZ_TOPRIGHT: u32 = 5;

pub const WMSZ_BOTTOM: u32 = 6;

pub const WMSZ_BOTTOMLEFT: u32 = 7;

pub const WMSZ_BOTTOMRIGHT: u32 = 8;

pub const MA_NOACTIVATE: u32 = 3;

pub const SWP_NOZORDER: u32 = 4;

pub const WS_POPUP: u32 = 0x80000000;

pub const WS_THICKFRAME: u32 = 0x40000;

pub const WS_EX_TOPMOST: u32 = 0x8;

pub const WS_EX_TRANSPARENT: u32 = 0x20;

pub const WS_EX_TOOLWINDOW: u32 = 0x80;

pub const WS_EX_APPWINDOW: u32 = 0x40000;

pub const WS_EX_LAYERED: u32 = 0x80000;

pub const WS_EX_NOREDIRECTIONBITMAP: u32 = 0x200000;

pub const WS_EX_NOACTIVATE: u32 = 0x8000000;

pub const MK_SHIFT: u32 = 4;

pub const MK_CONTROL: u32 = 8;

pub const MOD_ALT: u32 = 1;

pub const MOD_CONTROL: u32 = 2;

pub const MOD_SHIFT: u32 = 4;

pub const MOD_WIN: u32 = 8;

pub const MOD_NOREPEAT: u32 = 16384;

pub const VK_ESCAPE: u32 = 27;

pub const VK_SPACE: u32 = 32;

pub const VK_PRIOR: u32 = 33;

pub const VK_NEXT: u32 = 34;

pub const VK_LWIN: u32 = 91;

pub const VK_RWIN: u32 = 92;

pub const VK_F12: u32 = 123;

pub const VK_LSHIFT: u32 = 160;

pub const VK_RSHIFT: u32 = 161;

pub const VK_LCONTROL: u32 = 162;

pub const VK_RCONTROL: u32 = 163;

pub const VK_LMENU: u32 = 164;

pub const VK_RMENU: u32 = 165;

pub const PBT_APMQUERYSUSPEND: u32 = 0;

pub const PBT_APMSUSPEND: u32 = 4;

pub const PBT_APMRESUMESUSPEND: u32 = 7;

pub const PBT_APMBATTERYLOW: u32 = 9;

pub const PBT_APMRESUMEAUTOMATIC: u32 = 18;

pub const WTS_SESSION_LOGON: u32 = 5;

pub const WTS_SESSION_LOCK: u32 = 7;

pub const WTS_SESSION_UNLOCK: u32 = 8;

pub const ERROR_SUCCESS: u32 = 0;

pub const ERROR_FILE_NOT_FOUND: u32 = 2;

pub const ERROR_ALREADY_EXISTS: u32 = 183;

pub const ERROR_CANCELLED: u32 = 1223;

pub const ERROR_HOTKEY_ALREADY_REGISTERED: u32 = 1409;

} // verus!
