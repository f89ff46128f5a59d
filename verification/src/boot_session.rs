//! A mark of the session that the machine was last started into.

use vstd::prelude::*;

use crate::num::larger;
use crate::winapi::ERROR_SUCCESS;

verus! {

/// Where the kernel writes down when the system was last shut down.
pub const WINDOWS_KEY: &'static str = "SYSTEM\\CurrentControlSet\\Control\\Windows";

pub const SHUTDOWN_VALUE: &'static str = "ShutdownTime";

/// A mark of the session that the machine was last started into.
#[derive(Debug, PartialEq, Eq)]
pub struct BootStamp {
    /// When the system was started, in seconds.
    pub booted_at: i64,
    /// The moment of the shutdown before, as text, where it can be read.
    pub shutdown_tag: Option<String>,
}

/// When the system was started.
pub open spec fn started_at(now_secs: Option<u64>, uptime_ms: u64) -> i64 {
    let now: i64 = match now_secs {
        Some(n) => n as i64,
        None => 0,
    };
    larger(now - uptime_ms / 1000, i64::MIN as int) as i64
}

/// When the system was started: now, less the time that it has been running.
/// A clock that cannot be read counts as standing at zero.
pub fn booted_at_unix_secs(now_secs: Option<u64>, uptime_ms: u64) -> (r: i64)
    ensures
        r == started_at(now_secs, uptime_ms),
{
    let now: i64 = match now_secs {
        Some(n) => n as i64,
        None => 0,
    };
    let up: i64 = (uptime_ms / 1000) as i64;
    if now < i64::MIN + up {
        i64::MIN
    } else {
        now - up
    }
}

/// The character for half a byte.
pub open spec fn hex_digit(d: int) -> char {
    if d < 10 {
        ('0' as int + d) as char
    } else {
        ('a' as int + d - 10) as char
    }
}

fn hex_char(d: u8) -> (r: char)
    requires
        d < 16,
    ensures
        r == hex_digit(d as int),
{
    if d < 10 {
        (48 + d) as char
    } else {
        (87 + d) as char
    }
}

/// Bytes as text, two characters each.
pub open spec fn hex(bytes: Seq<u8>) -> Seq<char>
    decreases bytes.len(),
{
    if bytes.len() == 0 {
        seq![]
    } else {
        hex(bytes.drop_last()) + seq![
            hex_digit((bytes.last() / 16) as int),
            hex_digit((bytes.last() % 16) as int),
        ]
    }
}

/// The bytes that a value has.
pub open spec fn value_bytes(buf: Seq<u8>, size: u32) -> Seq<u8> {
    if size <= buf.len() {
        buf.take(size as int)
    } else {
        buf
    }
}

/// There is a moment to read.
pub open spec fn can_be_read(opened: u32, queried: u32, count: nat) -> bool {
    opened == ERROR_SUCCESS && queried == ERROR_SUCCESS && count > 0
}

/// The moment of the last shutdown as text: `opened` and `queried` are the
/// codes of opening the key and of reading the value, `buf` what was read and
/// `size` how much of it. Nothing where there is nothing to read.
pub fn shutdown_tag(opened: u32, queried: u32, buf: &Vec<u8>, size: u32) -> (r: Option<String>)
    ensures
        r is Some <==> can_be_read(opened, queried, value_bytes(buf@, size).len()),
        match r {
            Some(tag) => opened == ERROR_SUCCESS && queried == ERROR_SUCCESS && value_bytes(
                buf@,
                size,
            ).len() > 0 && tag@ == hex(value_bytes(buf@, size)),
            None => opened != ERROR_SUCCESS || queried != ERROR_SUCCESS || value_bytes(
                buf@,
                size,
            ).len() == 0,
        },
{
    if opened != ERROR_SUCCESS || queried != ERROR_SUCCESS {
        return None;
    }
    let count: usize = if size as usize <= buf.len() {
        size as usize
    } else {
        buf.len()
    };
    let ghost bytes = value_bytes(buf@, size);
    assert(bytes =~= buf@.take(count as int));
    if count == 0 {
        return None;
    }
    let mut tag = String::new();
    let mut i: usize = 0;
    assert(bytes.take(0) =~= Seq::<u8>::empty());
    while i < count
        invariant
            i <= count <= buf@.len(),
            bytes == buf@.take(count as int),
            tag@ == hex(bytes.take(i as int)),
        decreases count - i,
    {
        let b: u8 = buf[i];
        let ghost before = tag@;
        tag.push(hex_char(b / 16));
        tag.push(hex_char(b % 16));
        proof {
            assert(bytes.take(i + 1).drop_last() =~= bytes.take(i as int));
            assert(tag@ =~= before + seq![hex_digit((b / 16) as int), hex_digit((b % 16) as int)]);
        }
        i = i + 1;
    }
    assert(bytes.take(count as int) =~= bytes);
    Some(tag)
}

/// The mark of this session.
pub fn current_stamp(now_secs: Option<u64>, uptime_ms: u64, tag: Option<String>) -> (r: BootStamp)
    ensures
        r == (BootStamp { booted_at: started_at(now_secs, uptime_ms), shutdown_tag: tag }),
{
    BootStamp { booted_at: booted_at_unix_secs(now_secs, uptime_ms), shutdown_tag: tag }
}

/// Different moments have different texts.
pub proof fn tags_tell_apart(a: Seq<u8>, b: Seq<u8>)
    ensures
        hex(a) == hex(b) ==> a == b,
        hex(a).len() == 2 * a.len(),
    decreases a.len(),
{
    hex_is_twice_as_long(a);
    hex_is_twice_as_long(b);
    if hex(a) == hex(b) {
        if a.len() == 0 {
            assert(a =~= b);
        } else {
            let n = hex(a).len();
            let ha = hex(a.drop_last());
            let hb = hex(b.drop_last());
            hex_is_twice_as_long(a.drop_last());
            hex_is_twice_as_long(b.drop_last());
            assert(ha =~= hex(a).take(n - 2));
            assert(hb =~= hex(b).take(n - 2));
            tags_tell_apart(a.drop_last(), b.drop_last());
            assert(hex(a)[n - 1] == hex_digit((a.last() % 16) as int));
            assert(hex(a)[n - 2] == hex_digit((a.last() / 16) as int));
            assert(hex(b)[n - 1] == hex_digit((b.last() % 16) as int));
            assert(hex(b)[n - 2] == hex_digit((b.last() / 16) as int));
            assert(a.last() == b.last());
            assert(a =~= a.drop_last().push(a.last()));
            assert(b =~= b.drop_last().push(b.last()));
        }
    }
}

proof fn hex_is_twice_as_long(a: Seq<u8>)
    ensures
        hex(a).len() == 2 * a.len(),
    decreases a.len(),
{
    if a.len() > 0 {
        hex_is_twice_as_long(a.drop_last());
    }
}

/// The system was started as many whole seconds ago as it has been running.
pub proof fn start_is_now_less_the_uptime(now: u64, uptime_ms: u64)
    requires
        now <= i64::MAX,
    ensures
        1000 * (now - started_at(Some(now), uptime_ms)) <= uptime_ms < 1000 * (now - started_at(
            Some(now),
            uptime_ms,
        )) + 1000,
        started_at(None, uptime_ms) == started_at(Some(0), uptime_ms),
{
}

/// Each byte is two characters, the higher half first, 0 to 9 and then a to f.
pub proof fn byte_is_two_characters(bytes: Seq<u8>, b: u8)
    ensures
        ({
            let t = hex(bytes.push(b));
            let high = t[t.len() - 2] as int;
            let low = t[t.len() - 1] as int;
            &&& t.len() == hex(bytes).len() + 2
            &&& t.take(hex(bytes).len() as int) == hex(bytes)
            &&& 48 <= high <= 57 || 97 <= high <= 102
            &&& 48 <= low <= 57 || 97 <= low <= 102
            &&& b == 16 * (if high <= 57 {
                high - 48
            } else {
                high - 87
            }) + (if low <= 57 {
                low - 48
            } else {
                low - 87
            })
        }),
        hex(Seq::empty()) == Seq::<char>::empty(),
{
    assert(bytes.push(b).drop_last() =~= bytes);
    let t = hex(bytes.push(b));
    assert(t.take(hex(bytes).len() as int) =~= hex(bytes));
}

/// Of what was read, as much counts as the value has, and never more than there
/// is.
pub proof fn value_is_what_was_read_of_it(buf: Seq<u8>, size: u32, i: int)
    ensures
        value_bytes(buf, size).len() <= buf.len(),
        value_bytes(buf, size).len() <= size,
        value_bytes(buf, size).len() == buf.len() || value_bytes(buf, size).len() == size,
        0 <= i < value_bytes(buf, size).len() ==> value_bytes(buf, size)[i] == buf[i],
{
}

/// The moment can be read exactly where both codes are zero and there is a byte of
/// it.
pub proof fn moment_is_read_by_the_codes(opened: u32, queried: u32, buf: Seq<u8>, size: u32)
    ensures
        can_be_read(opened, queried, value_bytes(buf, size).len()) <==> opened == 0 && queried == 0
            && size > 0 && buf.len() > 0,
{
}

} // verus!
