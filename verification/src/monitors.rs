//! The monitors that are connected.

use vstd::prelude::*;

use crate::error::Win32Error;
use crate::model::{Edges, MonitorId, Rect};
use crate::utf16::{before_zero, decoded, utf16z_to_string};

verus! {

/// The density to assume where the system does not tell one.
pub const DEFAULT_DPI: u32 = 96;

/// The flag of the primary monitor.
pub const MONITORINFOF_PRIMARY: u32 = 1;

/// One monitor.
#[derive(Debug, PartialEq, Eq)]
pub struct MonitorInfo {
    /// The path of its device, which it keeps for good.
    pub id: MonitorId,
    /// A name to show.
    pub friendly_name: String,
    /// Its bounds in physical pixels of the virtual desktop.
    pub bounds_px: Rect,
    /// Its density; 96 is the standard one.
    pub dpi: u32,
    pub is_primary: bool,
}

impl Clone for MonitorInfo {
    fn clone(&self) -> (r: Self)
        ensures
            r == *self,
    {
        MonitorInfo {
            id: self.id.clone(),
            friendly_name: self.friendly_name.clone(),
            bounds_px: self.bounds_px,
            dpi: self.dpi,
            is_primary: self.is_primary,
        }
    }
}

/// What the system tells of one monitor.
#[derive(Debug, PartialEq, Eq)]
pub struct RawMonitor {
    /// The path of its device, ended by a zero.
    pub device_id: Vec<u16>,
    /// Its name, ended by a zero.
    pub device_string: Vec<u16>,
    pub bounds: Edges,
    /// Its density, where the system tells one.
    pub dpi: Option<u32>,
    pub flags: u32,
}

/// The bounds of a monitor as a rectangle; bounds that are turned over have no
/// extent.
pub fn rect_px(rc: Edges) -> (r: Rect)
    ensures
        r == rc.spec_rect(),
{
    rc.to_rect()
}

/// What is told of a monitor, put into its record.
pub open spec fn describes(raw: RawMonitor, info: MonitorInfo) -> bool {
    &&& info.id.0@ == decoded(before_zero(raw.device_id@))
    &&& info.friendly_name@ == decoded(before_zero(raw.device_string@))
    &&& info.bounds_px == raw.bounds.spec_rect()
    &&& info.dpi == (match raw.dpi {
        Some(d) => d,
        None => DEFAULT_DPI,
    })
    &&& info.is_primary == (raw.flags & MONITORINFOF_PRIMARY != 0)
}

/// Put what is told of a monitor into its record.
pub fn monitor_info(raw: &RawMonitor) -> (r: MonitorInfo)
    ensures
        describes(*raw, r),
{
    MonitorInfo {
        id: MonitorId(utf16z_to_string(raw.device_id.as_slice())),
        friendly_name: utf16z_to_string(raw.device_string.as_slice()),
        bounds_px: rect_px(raw.bounds),
        dpi: match raw.dpi {
            Some(d) => d,
            None => DEFAULT_DPI,
        },
        is_primary: raw.flags & MONITORINFOF_PRIMARY != 0,
    }
}

/// Put what is told of all monitors into records, in the same order. One that
/// could not be read spoils the whole: a part would look like monitors gone.
pub fn snapshot(reads: &Vec<Result<RawMonitor, i32>>) -> (r: Result<Vec<MonitorInfo>, Win32Error>)
    ensures
        match r {
            Ok(infos) => infos@.len() == reads@.len() && forall|i: int|
                0 <= i < reads@.len() ==> (#[trigger] reads@[i] matches Ok(raw) && describes(
                    raw,
                    infos@[i],
                )),
            Err(e) => exists|i: int|
                0 <= i < reads@.len() && (#[trigger] reads@[i] matches Err(code) && e
                    == Win32Error::Win32(code)) && forall|j: int|
                    0 <= j < i ==> (#[trigger] reads@[j]) is Ok,
        },
{
    let mut infos: Vec<MonitorInfo> = Vec::new();
    let mut i: usize = 0;
    while i < reads.len()
        invariant
            i <= reads.len(),
            infos@.len() == i,
            forall|j: int|
                0 <= j < i ==> (#[trigger] reads@[j] matches Ok(raw) && describes(raw, infos@[j])),
        decreases reads.len() - i,
    {
        match &reads[i] {
            Ok(raw) => {
                infos.push(monitor_info(raw));
            },
            Err(code) => {
                assert(reads@[i as int] is Err);
                return Err(Win32Error::Win32(*code));
            },
        }
        i = i + 1;
    }
    Ok(infos)
}

/// A monitor's record by the numbers that the system tells: it begins at the left
/// and top edge and reaches to the others, has the density 96 where none is told,
/// and is the primary one where the flags are odd.
pub proof fn record_has_the_monitors_numbers(raw: RawMonitor, info: MonitorInfo)
    requires
        describes(raw, info),
        raw.bounds.left <= raw.bounds.right,
        raw.bounds.top <= raw.bounds.bottom,
    ensures
        info.bounds_px.x == raw.bounds.left,
        info.bounds_px.y == raw.bounds.top,
        info.bounds_px.x + info.bounds_px.w == raw.bounds.right,
        info.bounds_px.y + info.bounds_px.h == raw.bounds.bottom,
        raw.dpi is None ==> info.dpi == 96,
        raw.dpi matches Some(d) ==> info.dpi == d,
        info.is_primary <==> raw.flags % 2 == 1,
        info.id.0@ == decoded(before_zero(raw.device_id@)),
        info.friendly_name@ == decoded(before_zero(raw.device_string@)),
{
    let flags = raw.flags;
    assert((flags & 1u32 != 0u32) == (flags % 2 == 1)) by (bit_vector);
}

} // verus!
