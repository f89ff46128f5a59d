# rst_win32

The decisions behind a sticker overlay for the Windows desktop, written and
verified in Verus.

Every rule that turns a window message, a key press, a clipboard block or a
registry value into an action is a function of the library under `src/`, with a
contract that says exactly what it answers. The windows themselves, the hooks,
the registry and the screen are reached from `app/`, ordinary Rust that carries
plain values in and actions out.

| Module | What it decides |
| --- | --- |
| `hotkey`, `hotkey_check`, `hotkey_hook` | reading, showing, registering and warning of shortcuts, and catching those that others hold |
| `keyboard_guard` | which key presses the tiling keeps, and when its hook has to be set anew |
| `overlay` | the overlay window: its messages, styles, shortcuts and place above others |
| `input` | the mouse on an overlay, and the cursors shown there |
| `crop_window` | the two windows of a live piece of another window |
| `clipboard`, `file_dialog`, `path` | pictures from outside |
| `thumb_cache` | previews of windows, kept for a while |
| `tiling_apply`, `cloak` | placing, focusing and hiding windows of others |
| `monitors`, `boot_session`, `single_instance`, `autostart` | what the system tells of itself |
| `sound` | the volume of a sound |
| `model`, `error`, `num`, `bytes`, `text`, `utf16`, `winapi`, `window` | what the others have in common |

Public proof functions state what holds across functions: that a shown shortcut
is read back, that a drag ends once, that a hidden window is marked.

Numbers that the system hands over as 32-bit coordinates are added and
subtracted without wrapping: a result that leaves the range is held at its end.
