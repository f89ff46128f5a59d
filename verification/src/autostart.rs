//! Starting the application with the session.

use vstd::prelude::*;

use crate::error::Win32Error;
use crate::text::{append, text_of};
use crate::utf16::{before_zero, decoded, encoded_z, to_wide, wide_text_is_read_back};
use crate::winapi::{ERROR_FILE_NOT_FOUND, ERROR_SUCCESS};

verus! {

/// Where the registry says what starts with the session.
pub const RUN_KEY: &'static str = "Software\\Microsoft\\Windows\\CurrentVersion\\Run";

pub const VALUE_NAME: &'static str = "resticker";

/// The registry's refusal, with its code.
pub fn win32_err(code: u32) -> (r: Win32Error)
    ensures
        r == Win32Error::Registry(code as i32),
{
    Win32Error::Registry(code as i32)
}

/// A path between quotation marks, so that blanks in it do not end it.
pub open spec fn quoted(path: Seq<char>) -> Seq<char> {
    "\""@ + path + "\""@
}

/// The bytes of units, the low one of each first.
pub open spec fn unit_bytes(units: Seq<u16>) -> Seq<u8> {
    Seq::new(
        2 * units.len(),
        |i: int|
            if i % 2 == 0 {
                (units[i / 2] % 256) as u8
            } else {
                (units[i / 2] / 256) as u8
            },
    )
}

/// The value that starts an executable with the session: the units of its
/// quoted path and a zero, as bytes.
pub fn run_value(exe_path: &str) -> (r: Vec<u8>)
    ensures
        r@ == unit_bytes(encoded_z(quoted(exe_path@))),
{
    let mut text: Vec<char> = Vec::new();
    append(&mut text, "\"");
    append(&mut text, exe_path);
    append(&mut text, "\"");
    assert(text@ =~= quoted(exe_path@));
    let units = to_wide(text_of(&text).as_str());
    let mut out: Vec<u8> = Vec::new();
    let mut i: usize = 0;
    while i < units.len()
        invariant
            i <= units@.len(),
            out@ == unit_bytes(units@.take(i as int)),
        decreases units.len() - i,
    {
        out.push((units[i] % 256) as u8);
        out.push((units[i] / 256) as u8);
        assert(out@ =~= unit_bytes(units@.take(i + 1)));
        i = i + 1;
    }
    assert(units@.take(units@.len() as int) =~= units@);
    out
}

/// What came of switching the start on or off.
pub open spec fn switched(enabled: bool, opened: u32, written: u32) -> Result<(), Win32Error> {
    if opened != ERROR_SUCCESS {
        Err(Win32Error::Registry(opened as i32))
    } else if written == ERROR_SUCCESS || (!enabled && written == ERROR_FILE_NOT_FOUND) {
        Ok(())
    } else {
        Err(Win32Error::Registry(written as i32))
    }
}

/// Whether the application starts with the session.
pub open spec fn starts(opened: u32, queried: u32) -> Result<bool, Win32Error> {
    if opened != ERROR_SUCCESS {
        Err(Win32Error::Registry(opened as i32))
    } else if queried == ERROR_FILE_NOT_FOUND {
        Ok(false)
    } else if queried == ERROR_SUCCESS {
        Ok(true)
    } else {
        Err(Win32Error::Registry(queried as i32))
    }
}

/// What came of switching the start on or off: `opened` is the code of opening
/// the key, `written` that of writing or removing the value. To switch off what
/// is off already is no failure.
pub fn set_enabled(enabled: bool, opened: u32, written: u32) -> (r: Result<(), Win32Error>)
    ensures
        r == switched(enabled, opened, written),
        r == (if opened != ERROR_SUCCESS {
            Err::<(), Win32Error>(Win32Error::Registry(opened as i32))
        } else if written == ERROR_SUCCESS || (!enabled && written == ERROR_FILE_NOT_FOUND) {
            Ok(())
        } else {
            Err(Win32Error::Registry(written as i32))
        }),
{
    if opened != ERROR_SUCCESS {
        return Err(win32_err(opened));
    }
    if written == ERROR_SUCCESS || (!enabled && written == ERROR_FILE_NOT_FOUND) {
        Ok(())
    } else {
        Err(win32_err(written))
    }
}

/// Whether the application starts with the session: `opened` is the code of
/// opening the key, `queried` that of asking for the value.
pub fn is_enabled(opened: u32, queried: u32) -> (r: Result<bool, Win32Error>)
    ensures
        r == starts(opened, queried),
        r == (if opened != ERROR_SUCCESS {
            Err::<bool, Win32Error>(Win32Error::Registry(opened as i32))
        } else if queried == ERROR_FILE_NOT_FOUND {
            Ok(false)
        } else if queried == ERROR_SUCCESS {
            Ok(true)
        } else {
            Err(Win32Error::Registry(queried as i32))
        }),
{
    if opened != ERROR_SUCCESS {
        return Err(win32_err(opened));
    }
    if queried == ERROR_FILE_NOT_FOUND {
        return Ok(false);
    }
    if queried != ERROR_SUCCESS {
        return Err(win32_err(queried));
    }
    Ok(true)
}

/// The units that bytes hold, the low byte of each first.
pub open spec fn units_of(bytes: Seq<u8>) -> Seq<u16> {
    Seq::new(
        (bytes.len() / 2) as nat,
        |i: int| (bytes[2 * i] + 256 * bytes[2 * i + 1]) as u16,
    )
}

/// What is written is what the system will start: read back, the value is the
/// quoted path.
pub proof fn run_value_names_the_path(path: Seq<char>)
    requires
        forall|i: int| 0 <= i < path.len() ==> path[i] as u32 != 0,
    ensures
        decoded(before_zero(units_of(unit_bytes(encoded_z(quoted(path)))))) == quoted(path),
{
    reveal_strlit("\"");
    let units = encoded_z(quoted(path));
    assert(units_of(unit_bytes(units)) =~= units);
    wide_text_is_read_back(quoted(path), seq![]);
    assert(units + Seq::<u16>::empty() =~= units);
}

/// The bytes of units: two for each, the low one first.
pub proof fn low_byte_of_a_unit_comes_first(units: Seq<u16>, i: int)
    requires
        0 <= i < units.len(),
    ensures
        unit_bytes(units).len() == 2 * units.len(),
        unit_bytes(units)[2 * i] + 256 * unit_bytes(units)[2 * i + 1] == units[i],
{
}

/// A quoted path is the path with a quotation mark, the character 34, before it
/// and behind it.
pub proof fn path_stands_in_quotation_marks(path: Seq<char>)
    ensures
        quoted(path).len() == path.len() + 2,
        quoted(path)[0] as int == 34,
        quoted(path).last() as int == 34,
        quoted(path).subrange(1, path.len() as int + 1) == path,
{
    reveal_strlit("\"");
    assert(quoted(path).subrange(1, path.len() as int + 1) =~= path);
}

/// The start is switched where the key opens (0) and the value is written (0) or,
/// to switch it off, is not there (2); it is on where the value is there (0) and off
/// where it is not (2). Any other code is the error, that of opening the key first.
pub proof fn start_goes_by_the_codes(enabled: bool, opened: u32, code: u32)
    ensures
        switched(enabled, opened, code) is Ok <==> opened == 0 && (code == 0 || (code == 2
            && !enabled)),
        starts(opened, code) == Ok::<bool, Win32Error>(true) <==> opened == 0 && code == 0,
        starts(opened, code) == Ok::<bool, Win32Error>(false) <==> opened == 0 && code == 2,
        opened != 0 ==> switched(enabled, opened, code) == Err::<(), Win32Error>(
            Win32Error::Registry(opened as i32),
        ) && starts(opened, code) == Err::<bool, Win32Error>(Win32Error::Registry(opened as i32)),
        opened == 0 && code != 0 && code != 2 ==> switched(enabled, opened, code) == Err::<
            (),
            Win32Error,
        >(Win32Error::Registry(code as i32)) && starts(opened, code) == Err::<bool, Win32Error>(
            Win32Error::Registry(code as i32),
        ),
        opened == 0 && code == 2 && enabled ==> switched(enabled, opened, code) == Err::<
            (),
            Win32Error,
        >(Win32Error::Registry(2)),
{
}

} // verus!
