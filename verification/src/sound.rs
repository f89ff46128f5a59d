//! The sound of pinning a window, at a volume of its own.

use vstd::arithmetic::power2::pow2;
use vstd::prelude::*;

use crate::bytes::{le16, le32, read_u16, read_u32};

verus! {

/// The four bytes at a place spell a tag.
pub open spec fn tagged(bytes: Seq<u8>, at: int, tag: Seq<u8>) -> bool {
    forall|i: int| 0 <= i < 4 ==> bytes[at + i] == #[trigger] tag[i]
}

fn is_tagged(bytes: &[u8], at: usize, tag: [u8; 4]) -> (r: bool)
    requires
        at + 4 <= bytes@.len(),
    ensures
        r == tagged(bytes@, at as int, tag@),
{
    let same = bytes[at] == tag[0] && bytes[at + 1] == tag[1] && bytes[at + 2] == tag[2] && bytes[at
        + 3] == tag[3];
    proof {
        if same {
            assert forall|i: int| 0 <= i < 4 implies bytes@[at + i] == #[trigger] tag@[i] by {}
        } else {
            assert(tagged(bytes@, at as int, tag@) ==> bytes@[at + 0] == tag@[0] && bytes@[at + 1]
                == tag@[1] && bytes@[at + 2] == tag@[2] && bytes@[at + 3] == tag@[3]);
        }
    }
    same
}

/// What a sound file says of itself: how its samples are written, and where
/// they are.
pub struct Layout {
    /// The tag of the encoding, and how many bits a sample has.
    pub format: Option<(int, int)>,
    /// Where the samples start and end.
    pub data: Option<(int, int)>,
}

/// "RIFF", which a sound file starts with.
pub const RIFF: [u8; 4] = [0x52, 0x49, 0x46, 0x46];

/// "WAVE", which follows the length of the file.
pub const WAVE: [u8; 4] = [0x57, 0x41, 0x56, 0x45];

/// "fmt ", the tag of the part that describes the samples.
pub const FORMAT: [u8; 4] = [0x66, 0x6D, 0x74, 0x20];

/// "data", the tag of the part that holds the samples.
pub const DATA: [u8; 4] = [0x64, 0x61, 0x74, 0x61];

/// What the parts from `pos` on add to what is known. A part that does not fit
/// ends the file; of several that describe or hold the samples the last counts.
/// Nothing is known of a file with a part that ends beyond all addresses.
pub open spec fn walked(wav: Seq<u8>, pos: int, known: Layout) -> Option<Layout>
    decreases wav.len() + 1 - pos,
{
    if pos < 0 || pos + 8 > wav.len() {
        Some(known)
    } else {
        let size = le32(wav, pos + 4);
        let start = pos + 8;
        let end = start + size;
        if size < 0 || end > usize::MAX {
            None
        } else if end > wav.len() {
            Some(known)
        } else {
            let next = if tagged(wav, pos, FORMAT@) && size >= 16 {
                Layout {
                    format: Some((le16(wav, start), le16(wav, start + 14))),
                    data: known.data,
                }
            } else if tagged(wav, pos, DATA@) {
                Layout { format: known.format, data: Some((start, end)) }
            } else {
                known
            };
            walked(wav, end + size % 2, next)
        }
    }
}

/// The tag of samples that are written as plain whole numbers.
pub const PCM: u16 = 1;

/// Where the samples of a sound file are: only in a file that calls itself one,
/// and only plain ones of sixteen bits.
pub open spec fn samples_of(wav: Seq<u8>) -> Option<(int, int)> {
    if wav.len() < 12 || !tagged(wav, 0, RIFF@) || !tagged(wav, 8, WAVE@) {
        None
    } else {
        match walked(wav, 12, Layout { format: None, data: None }) {
            Some(layout) => if layout.format == Some((PCM as int, 16int)) {
                layout.data
            } else {
                None
            },
            None => None,
        }
    }
}

fn find_samples(wav: &[u8]) -> (r: Option<(usize, usize)>)
    ensures
        match r {
            Some((start, end)) => samples_of(wav@) == Some((start as int, end as int)) && start
                <= end <= wav@.len(),
            None => samples_of(wav@) is None,
        },
{
    if wav.len() < 12 || !is_tagged(wav, 0, RIFF) || !is_tagged(wav, 8, WAVE) {
        return None;
    }
    let mut pos: usize = 12;
    let mut format: Option<(u16, u16)> = None;
    let mut data: Option<(usize, usize)> = None;
    let ghost mut known = Layout { format: None, data: None };
    let ghost all = walked(wav@, 12, known);
    while wav.len() - pos >= 8
        invariant_except_break
            pos <= wav@.len(),
            all == walked(wav@, pos as int, known),
            known.format == (match format {
                Some((tag, bits)) => Some((tag as int, bits as int)),
                None => None,
            }),
            known.data == (match data {
                Some((start, end)) => Some((start as int, end as int)),
                None => None,
            }),
            data matches Some((start, end)) ==> start <= end <= wav@.len(),
            wav@.len() >= 12,
            tagged(wav@, 0, RIFF@),
            tagged(wav@, 8, WAVE@),
            all == walked(wav@, 12, Layout { format: None, data: None }),
        ensures
            all == Some(known),
            known.format == (match format {
                Some((tag, bits)) => Some((tag as int, bits as int)),
                None => None,
            }),
            known.data == (match data {
                Some((start, end)) => Some((start as int, end as int)),
                None => None,
            }),
            data matches Some((start, end)) ==> start <= end <= wav@.len(),
            all == walked(wav@, 12, Layout { format: None, data: None }),
            wav@.len() >= 12,
            tagged(wav@, 0, RIFF@),
            tagged(wav@, 8, WAVE@),
        decreases wav@.len() - pos,
    {
        let size: usize = read_u32(wav, pos + 4) as usize;
        let start: usize = pos + 8;
        let end: usize = match start.checked_add(size) {
            Some(end) => end,
            None => {
                return None;
            },
        };
        if end > wav.len() {
            break;
        }
        if is_tagged(wav, pos, FORMAT) && size >= 16 {
            format = Some((read_u16(wav, start), read_u16(wav, start + 14)));
            proof {
                known = Layout {
                    format: Some((le16(wav@, start as int), le16(wav@, start + 14))),
                    data: known.data,
                };
            }
        } else if is_tagged(wav, pos, DATA) {
            data = Some((start, end));
            proof {
                known = Layout { format: known.format, data: Some((start as int, end as int)) };
            }
        }
        proof {
            assert(all == walked(wav@, end + size as int % 2, known));
        }
        if size % 2 == 1 && end < wav.len() {
            pos = end + 1;
        } else {
            pos = end;
            assert(all == walked(wav@, pos as int, known));
        }
    }
    match format {
        Some((tag, bits)) => if tag == PCM && bits == 16 {
            data
        } else {
            None
        },
        None => None,
    }
}

/// A sample by its two bytes, the low one first.
pub open spec fn sample_at(bytes: Seq<u8>, at: int) -> int {
    if le16(bytes, at) < 0x8000 {
        le16(bytes, at)
    } else {
        le16(bytes, at) - 0x1_0000
    }
}

/// The two bytes of a sample, the low one first.
pub open spec fn sample_bytes(n: int) -> Seq<u8> {
    let word = if n < 0 {
        n + 0x1_0000
    } else {
        n
    };
    seq![(word % 256) as u8, (word / 256) as u8]
}

/// The quotient rounded to the nearest whole number, to the even one of two
/// that are equally near.
pub open spec fn nearest(n: int, d: int) -> int {
    let q = n / d;
    let rest = n % d;
    if 2 * rest > d || (2 * rest == d && q % 2 == 1) {
        q + 1
    } else {
        q
    }
}

fn to_nearest(n: u64, d: u64) -> (r: u64)
    requires
        0 < d <= 0x1_0000_0000,
        n <= 0x1_0000_0000_0000,
    ensures
        r == nearest(n as int, d as int),
        r * d <= n + d,
        r <= n + 1,
{
    let q: u64 = n / d;
    let rest: u64 = n % d;
    proof {
        assert(n == q * d + rest && q <= n) by (nonlinear_arith)
            requires
                q == n / d,
                rest == n % d,
                d > 0,
        ;
        assert((q + 1) * d == q * d + d) by (nonlinear_arith);
    }
    if 2 * rest > d || (2 * rest == d && q % 2 == 1) {
        q + 1
    } else {
        q
    }
}

/// The last of the twenty-four leading binary digits of a number counts this
/// much; one where it has no more of them.
pub open spec fn last_digit(n: int) -> int
    decreases n,
{
    if n < 0x100_0000 {
        1
    } else {
        2 * last_digit(n / 2)
    }
}

fn find_last_digit(n: u64) -> (r: u64)
    requires
        n <= 0x1_0000_0000_0000,
    ensures
        r == last_digit(n as int),
        0 < r <= 0x200_0000,
        r == 1 || r * 0x80_0000 <= n,
{
    let mut rest: u64 = n;
    let mut unit: u64 = 1;
    while rest >= 0x100_0000
        invariant
            n <= 0x1_0000_0000_0000,
            last_digit(n as int) == unit * last_digit(rest as int),
            unit > 0,
            unit * rest <= n,
            unit == 1 || rest >= 0x80_0000,
            unit <= 0x200_0000,
        decreases rest,
    {
        proof {
            assert(unit * last_digit(rest as int) == (2 * unit) * last_digit(rest as int / 2))
                by (nonlinear_arith)
                requires
                    last_digit(rest as int) == 2 * last_digit(rest as int / 2),
            ;
            assert((2 * unit) * (rest / 2) <= unit * rest) by (nonlinear_arith)
                requires
                    2 * (rest / 2) <= rest,
                    unit > 0,
            ;
            assert(unit * 0x100_0000 <= unit * rest) by (nonlinear_arith)
                requires
                    rest >= 0x100_0000,
                    unit > 0,
            ;
        }
        rest = rest / 2;
        unit = 2 * unit;
    }
    proof {
        if unit != 1 {
            assert(unit * 0x80_0000 <= unit * rest) by (nonlinear_arith)
                requires
                    rest >= 0x80_0000,
                    unit > 0,
            ;
        }
    }
    unit
}

/// A number rounded to twenty-four binary digits.
pub open spec fn rounded(n: int) -> int {
    nearest(n, last_digit(n)) * last_digit(n)
}

fn round_off(n: u64) -> (r: u64)
    requires
        n <= 0x1_0000_0000_0000,
    ensures
        r == rounded(n as int),
        r <= n + 0x200_0000,
{
    let unit: u64 = find_last_digit(n);
    let q: u64 = to_nearest(n, unit);
    q * unit
}

/// A volume as a share of the full one, in units of two to the minus thirty,
/// rounded to twenty-four binary digits.
pub open spec fn share(volume_percent: u8) -> int {
    let unit = last_digit(volume_percent * 0x4000_0000 / 100);
    nearest(volume_percent * 0x4000_0000, 100 * unit) * unit
}

fn share_of(volume_percent: u8) -> (r: u64)
    ensures
        r == share(volume_percent),
        r <= 0x1_0000_0000,
{
    let whole: u64 = volume_percent as u64 * 0x4000_0000;
    let unit: u64 = find_last_digit(whole / 100);
    let q: u64 = to_nearest(whole, 100 * unit);
    proof {
        assert(unit <= 0x200);
        assert(100 * (q * unit) == q * (100 * unit)) by (nonlinear_arith);
    }
    q * unit
}

/// A sample at a share of the full volume: the product is rounded to twenty-four
/// binary digits, then to the nearest whole number, away from zero where two are
/// equally near, and held within what a sample can be.
pub open spec fn at_share(sample: int, share: int) -> int {
    let size = if sample < 0 {
        -sample
    } else {
        sample
    };
    let scaled = (rounded(size * share) + 0x2000_0000) / 0x4000_0000;
    if sample < 0 {
        if scaled > 0x8000 {
            -0x8000
        } else {
            -scaled
        }
    } else if scaled > 0x7FFF {
        0x7FFF
    } else {
        scaled
    }
}

fn scale_sample(sample: i16, share: u64) -> (r: i16)
    requires
        share <= 0x1_0000_0000,
    ensures
        r == at_share(sample as int, share as int),
{
    let size: u64 = if sample < 0 {
        (-(sample as i64)) as u64
    } else {
        sample as u64
    };
    proof {
        assert(size * share <= 0x8000_0000_0000) by (nonlinear_arith)
            requires
                size <= 0x8000,
                share <= 0x1_0000_0000,
        ;
    }
    let product: u64 = size * share;
    let scaled: u64 = (round_off(product) + 0x2000_0000) / 0x4000_0000;
    if sample < 0 {
        if scaled > 0x8000 {
            i16::MIN
        } else {
            (-(scaled as i64)) as i16
        }
    } else if scaled > 0x7FFF {
        i16::MAX
    } else {
        scaled as i16
    }
}

/// One byte of a sound file whose samples lie from `start` to `end`, at another
/// volume. Half a sample at the end is left as it is.
pub open spec fn scaled_byte(wav: Seq<u8>, start: int, end: int, share: int, i: int) -> u8 {
    let last = start + (end - start) / 2 * 2;
    if start <= i < last {
        let at = start + (i - start) / 2 * 2;
        sample_bytes(at_share(sample_at(wav, at), share))[i - at]
    } else {
        wav[i]
    }
}

/// A sound file at another volume: the same file, with every sample scaled.
/// None of a file that is not one of plain samples of sixteen bits.
pub open spec fn scaled_wav(wav: Seq<u8>, volume_percent: u8) -> Option<Seq<u8>> {
    match samples_of(wav) {
        Some((start, end)) => Some(
            Seq::new(
                wav.len(),
                |i: int| scaled_byte(wav, start, end, share(volume_percent), i),
            ),
        ),
        None => None,
    }
}

fn read_sample(wav: &[u8], at: usize) -> (r: i16)
    requires
        at + 2 <= wav@.len(),
    ensures
        r == sample_at(wav@, at as int),
{
    let word: u16 = read_u16(wav, at);
    if word < 0x8000 {
        word as i16
    } else {
        (word as i32 - 0x1_0000) as i16
    }
}

fn push_sample(out: &mut Vec<u8>, sample: i16)
    ensures
        final(out)@ == old(out)@ + sample_bytes(sample as int),
{
    let word: u16 = if sample < 0 {
        (sample as i32 + 0x1_0000) as u16
    } else {
        sample as u16
    };
    out.push((word % 256) as u8);
    out.push((word / 256) as u8);
    assert(out@ =~= old(out)@ + sample_bytes(sample as int));
}

fn copy_until(out: &mut Vec<u8>, wav: &[u8], end: usize)
    requires
        old(out)@.len() <= end <= wav@.len(),
    ensures
        final(out)@ == old(out)@ + wav@.subrange(old(out)@.len() as int, end as int),
{
    let ghost from = out@.len() as int;
    while out.len() < end
        invariant
            from == old(out)@.len(),
            from <= out@.len() <= end <= wav@.len(),
            out@ == old(out)@ + wav@.subrange(from, out@.len() as int),
        decreases end - out.len(),
    {
        let i: usize = out.len();
        out.push(wav[i]);
        assert(out@ =~= old(out)@ + wav@.subrange(from, i + 1));
    }
}

/// A sound file at another volume, in percent. The header stays as it is.
pub fn scale_wav_volume(wav: &[u8], volume_percent: u8) -> (r: Option<Vec<u8>>)
    ensures
        match r {
            Some(out) => scaled_wav(wav@, volume_percent) == Some(out@),
            None => scaled_wav(wav@, volume_percent) is None,
        },
{
    let (start, end) = match find_samples(wav) {
        Some(range) => range,
        None => {
            return None;
        },
    };
    let share: u64 = share_of(volume_percent);
    let last: usize = start + (end - start) / 2 * 2;
    let ghost scaled = |i: int|
        scaled_byte(wav@, start as int, end as int, share as int, i);
    let mut out: Vec<u8> = Vec::new();
    copy_until(&mut out, wav, start);
    let mut at: usize = start;
    while at < last
        invariant
            start <= at <= last <= end <= wav@.len(),
            last == start + (end - start) / 2 * 2,
            (at - start) % 2 == 0,
            share <= 0x1_0000_0000,
            out@.len() == at,
            forall|i: int|
                0 <= i < at ==> #[trigger] out@[i] == scaled_byte(
                    wav@,
                    start as int,
                    end as int,
                    share as int,
                    i,
                ),
        decreases last - at,
    {
        let ghost before = out@;
        push_sample(&mut out, scale_sample(read_sample(wav, at), share));
        proof {
            assert forall|i: int| 0 <= i < at + 2 implies #[trigger] out@[i] == scaled_byte(
                wav@,
                start as int,
                end as int,
                share as int,
                i,
            ) by {
                if i < at {
                    assert(out@[i] == before[i]);
                } else {
                    assert(start + (i - start) / 2 * 2 == at);
                }
            }
        }
        at = at + 2;
    }
    copy_until(&mut out, wav, wav.len());
    proof {
        assert(out@ =~= Seq::new(wav@.len(), scaled));
        assert(scaled_wav(wav@, volume_percent) == Some(out@));
    }
    Some(out)
}

/// The sound to play at a volume: nothing at no volume, and the full one at
/// most.
pub fn pin_sound(wav: &[u8], volume_percent: u8) -> (r: Option<Vec<u8>>)
    ensures
        match r {
            Some(out) => volume_percent != 0 && scaled_wav(
                wav@,
                if volume_percent > 100 {
                    100
                } else {
                    volume_percent
                },
            ) == Some(out@),
            None => volume_percent == 0 || samples_of(wav@) is None,
        },
{
    if volume_percent == 0 {
        return None;
    }
    scale_wav_volume(
        wav,
        if volume_percent > 100 {
            100
        } else {
            volume_percent
        },
    )
}

proof fn multiples_divide(a: int, d: int, f: int)
    requires
        d > 0,
        f > 0,
        a % d == 0,
    ensures
        a == (a / d) * d,
        (f * a) % (f * d) == 0,
{
    vstd::arithmetic::div_mod::lemma_fundamental_div_mod(a, d);
    let k = a / d;
    assert(d * k == k * d) by (nonlinear_arith);
    assert(f * (k * d) == k * (f * d) && f * d > 0) by (nonlinear_arith)
        requires
            f > 0,
            d > 0,
    ;
    vstd::arithmetic::div_mod::lemma_mod_multiples_basic(k, f * d);
}

proof fn digit_divides(n: int, j: nat)
    requires
        0 <= n < 0x100_0000 * pow2(j),
    ensures
        last_digit(n) > 0,
        pow2(j) as int % last_digit(n) == 0,
    decreases j,
{
    if n >= 0x100_0000 {
        if j == 0 {
            vstd::arithmetic::power2::lemma2_to64();
        } else {
            vstd::arithmetic::power2::lemma_pow2_unfold(j);
            digit_divides(n / 2, (j - 1) as nat);
            let d = last_digit(n / 2);
            let half = pow2((j - 1) as nat) as int;
            multiples_divide(half, d, 2);
        }
    }
}

/// The last digit of any number that comes up here divides the unit of a share.
proof fn digit_divides_unit(n: int)
    requires
        0 <= n <= 0x1_0000_0000_0000,
    ensures
        last_digit(n) > 0,
        0x4000_0000int % last_digit(n) == 0,
{
    vstd::arithmetic::power2::lemma2_to64();
    digit_divides(n, 30);
}

proof fn nearest_stays_below(x: int, y: int, d: int)
    requires
        0 <= x <= y,
        d > 0,
        y % d == 0,
    ensures
        0 <= nearest(x, d) * d <= y,
        x % d == 0 ==> nearest(x, d) * d == x,
{
    let k = y / d;
    let q = x / d;
    let rest = x % d;
    assert(y == k * d && x == q * d + rest && q >= 0) by (nonlinear_arith)
        requires
            d > 0,
            y % d == 0,
            0 <= x,
            k == y / d,
            q == x / d,
            rest == x % d,
    ;
    assert(q <= k && (rest > 0 ==> q < k)) by (nonlinear_arith)
        requires
            d > 0,
            q * d + rest <= k * d,
            rest >= 0,
    ;
    let n = nearest(x, d);
    assert(0 <= n * d <= k * d) by (nonlinear_arith)
        requires
            0 <= n <= k,
            d > 0,
    ;
}

proof fn multiple_of_unit(size: int, d: int)
    requires
        d > 0,
        0x4000_0000int % d == 0,
    ensures
        (size * 0x4000_0000) % d == 0,
{
    multiples_divide(0x4000_0000, d, 1);
    let k = 0x4000_0000int / d;
    assert(size * 0x4000_0000 == (size * k) * d) by (nonlinear_arith)
        requires
            0x4000_0000 == k * d,
    ;
    vstd::arithmetic::div_mod::lemma_mod_multiples_basic(size * k, d);
}

proof fn full_share()
    ensures
        share(100) == 0x4000_0000,
{
    assert(last_digit(0x4000_0000) == 0x80) by {
        reveal_with_fuel(last_digit, 8);
    }
    assert(100u8 * 0x4000_0000 / 100 == 0x4000_0000);
    assert(nearest(100int * 0x4000_0000, 100int * 0x80) == 0x80_0000);
}

proof fn share_stays_below(volume_percent: u8)
    requires
        volume_percent <= 100,
    ensures
        0 <= share(volume_percent) <= 0x4000_0000,
{
    let whole = volume_percent * 0x4000_0000;
    let unit = last_digit(whole / 100);
    digit_divides_unit(whole / 100);
    multiples_divide(0x4000_0000, unit, 100);
    nearest_stays_below(whole, 100int * 0x4000_0000, 100 * unit);
    let q = nearest(whole, 100 * unit);
    assert(q * (100 * unit) == 100 * (q * unit)) by (nonlinear_arith);
}

proof fn share_is_bounded(volume_percent: u8)
    ensures
        0 <= share(volume_percent) <= 0x1_0000_0000,
{
    let whole = volume_percent * 0x4000_0000;
    let unit = last_digit(whole / 100);
    digit_divides_unit(whole / 100);
    multiple_of_unit(3, unit);
    multiples_divide(3int * 0x4000_0000, unit, 100);
    nearest_stays_below(whole, 100int * (3int * 0x4000_0000), 100 * unit);
    let q = nearest(whole, 100 * unit);
    assert(q * (100 * unit) == 100 * (q * unit)) by (nonlinear_arith);
}

/// No volume up to the full one makes a sound louder than it is, and none turns
/// it over.
pub proof fn sample_stays_below(sample: i16, volume_percent: u8)
    requires
        volume_percent <= 100,
    ensures
        sample >= 0 ==> 0 <= at_share(sample as int, share(volume_percent)) <= sample,
        sample < 0 ==> sample <= at_share(sample as int, share(volume_percent)) <= 0,
{
    share_stays_below(volume_percent);
    let part = share(volume_percent);
    let size: int = if sample < 0 {
        -(sample as int)
    } else {
        sample as int
    };
    assert(0 <= size * part <= size * 0x4000_0000) by (nonlinear_arith)
        requires
            0 <= size,
            0 <= part <= 0x4000_0000,
    ;
    digit_divides_unit(size * part);
    multiple_of_unit(size, last_digit(size * part));
    nearest_stays_below(size * part, size * 0x4000_0000, last_digit(size * part));
}

/// The full volume leaves every sample as it is, and no volume leaves silence.
pub proof fn sample_at_full_and_at_none(sample: i16)
    ensures
        at_share(sample as int, share(100)) == sample,
        at_share(sample as int, share(0)) == 0,
{
    full_share();
    let size: int = if sample < 0 {
        -(sample as int)
    } else {
        sample as int
    };
    digit_divides_unit(size * 0x4000_0000);
    multiple_of_unit(size, last_digit(size * 0x4000_0000));
    nearest_stays_below(
        size * 0x4000_0000,
        size * 0x4000_0000,
        last_digit(size * 0x4000_0000),
    );
    assert(size * 0 == 0);
}

proof fn walked_stays_within(wav: Seq<u8>, pos: int, known: Layout)
    requires
        pos >= 0,
        known.data matches Some((start, end)) ==> 0 <= start <= end <= wav.len(),
    ensures
        walked(wav, pos, known) matches Some(layout) ==> (layout.data matches Some((start, end))
            ==> 0 <= start <= end <= wav.len()),
    decreases wav.len() + 1 - pos,
{
    if pos + 8 <= wav.len() {
        let size = le32(wav, pos + 4);
        let start = pos + 8;
        let end = start + size;
        if !(size < 0 || end > usize::MAX) && end <= wav.len() {
            let next = if tagged(wav, pos, FORMAT@) && size >= 16 {
                Layout {
                    format: Some((le16(wav, start), le16(wav, start + 14))),
                    data: known.data,
                }
            } else if tagged(wav, pos, DATA@) {
                Layout { format: known.format, data: Some((start, end)) }
            } else {
                known
            };
            walked_stays_within(wav, end + size % 2, next);
        }
    }
}

proof fn bytes_are_read_back(bytes: Seq<u8>, at: int, n: int)
    requires
        -0x8000 <= n <= 0x7FFF,
        bytes[at] == sample_bytes(n)[0],
        bytes[at + 1] == sample_bytes(n)[1],
    ensures
        sample_at(bytes, at) == n,
{
}

proof fn sample_is_written_back(bytes: Seq<u8>, at: int)
    ensures
        sample_bytes(sample_at(bytes, at))[0] == bytes[at],
        sample_bytes(sample_at(bytes, at))[1] == bytes[at + 1],
{
}

proof fn share_keeps_range(sample: int, share: int)
    requires
        -0x8000 <= sample <= 0x7FFF,
        0 <= share <= 0x1_0000_0000,
    ensures
        -0x8000 <= at_share(sample, share) <= 0x7FFF,
{
    let size = if sample < 0 {
        -sample
    } else {
        sample
    };
    assert(0 <= size * share <= 0x8000_0000_0000) by (nonlinear_arith)
        requires
            0 <= size <= 0x8000,
            0 <= share <= 0x1_0000_0000,
    ;
    let n = size * share;
    digit_divides_unit(n);
    let d = last_digit(n);
    assert(0 <= nearest(n, d) * d) by (nonlinear_arith)
        requires
            nearest(n, d) >= 0,
            d > 0,
    ;
}

/// Another volume changes the samples and nothing else: the file is as long as
/// it was, every byte outside the samples is the same, and each sample is what
/// the volume makes of it.
pub proof fn volume_changes_the_samples(wav: Seq<u8>, volume_percent: u8, i: int)
    requires
        samples_of(wav) is Some,
        0 <= i < wav.len(),
    ensures
        ({
            let out = scaled_wav(wav, volume_percent)->0;
            let (start, end) = samples_of(wav)->0;
            &&& 0 <= start <= end <= wav.len()
            &&& out.len() == wav.len()
            &&& !(start <= i < end) ==> out[i] == wav[i]
            &&& start <= i && i + 1 < end && (i - start) % 2 == 0 ==> sample_at(out, i) == at_share(
                sample_at(wav, i),
                share(volume_percent),
            )
        }),
{
    walked_stays_within(wav, 12, Layout { format: None, data: None });
    share_is_bounded(volume_percent);
    let out = scaled_wav(wav, volume_percent)->0;
    let (start, end) = samples_of(wav)->0;
    if start <= i && i + 1 < end && (i - start) % 2 == 0 {
        let n = at_share(sample_at(wav, i), share(volume_percent));
        share_keeps_range(sample_at(wav, i), share(volume_percent));
        assert(start + (i - start) / 2 * 2 == i);
        assert(start + (i + 1 - start) / 2 * 2 == i);
        bytes_are_read_back(out, i, n);
    }
}

/// At the full volume the file is the same file.
pub proof fn full_volume_changes_nothing(wav: Seq<u8>)
    requires
        samples_of(wav) is Some,
    ensures
        scaled_wav(wav, 100) == Some(wav),
{
    walked_stays_within(wav, 12, Layout { format: None, data: None });
    let out = scaled_wav(wav, 100)->0;
    let (start, end) = samples_of(wav)->0;
    assert forall|i: int| 0 <= i < wav.len() implies out[i] == wav[i] by {
        if start <= i < start + (end - start) / 2 * 2 {
            let at = start + (i - start) / 2 * 2;
            sample_at_full_and_at_none(sample_at(wav, at) as i16);
            sample_is_written_back(wav, at);
        }
    }
    assert(out =~= wav);
}

/// A sample is two bytes, of which the first counts ones and the second two
/// hundred and fifty-sixes, negative from 0x8000 on.
pub proof fn sample_by_its_bytes(bytes: Seq<u8>, at: int)
    ensures
        bytes[at + 1] < 0x80 ==> sample_at(bytes, at) == bytes[at] + 0x100 * bytes[at + 1],
        bytes[at + 1] >= 0x80 ==> sample_at(bytes, at) == bytes[at] + 0x100 * bytes[at + 1]
            - 0x1_0000,
{
}

/// The parts of a sound file, by their bytes: four letters, a length of four
/// bytes with the low one first, and so many bytes, to which one is added where
/// they are odd. Of the part `fmt `, if it has sixteen bytes or more, the first
/// two bytes are the encoding and the fifteenth and sixteenth the bits of a
/// sample; the part `data` is the samples; any other part says nothing.
pub proof fn parts_follow_one_another(wav: Seq<u8>, pos: int, known: Layout, size: int)
    requires
        0 <= pos,
        pos + 8 <= wav.len() <= usize::MAX,
        size == wav[pos + 4] + 0x100 * wav[pos + 5] + 0x1_0000 * wav[pos + 6] + 0x100_0000 * wav[pos
            + 7],
        pos + 8 + size <= wav.len(),
    ensures
        ({
            let next = pos + 8 + size + (if size % 2 == 1 {
                1int
            } else {
                0
            });
            let format = wav[pos] == 0x66 && wav[pos + 1] == 0x6D && wav[pos + 2] == 0x74 && wav[pos
                + 3] == 0x20;
            let data = wav[pos] == 0x64 && wav[pos + 1] == 0x61 && wav[pos + 2] == 0x74 && wav[pos
                + 3] == 0x61;
            &&& format && size >= 16 ==> walked(wav, pos, known) == walked(
                wav,
                next,
                Layout {
                    format: Some(
                        (
                            wav[pos + 8] + 0x100 * wav[pos + 9],
                            wav[pos + 22] + 0x100 * wav[pos + 23],
                        ),
                    ),
                    data: known.data,
                },
            )
            &&& data ==> walked(wav, pos, known) == walked(
                wav,
                next,
                Layout { format: known.format, data: Some((pos + 8, pos + 8 + size)) },
            )
            &&& !data && !(format && size >= 16) ==> walked(wav, pos, known) == walked(
                wav,
                next,
                known,
            )
        }),
{
    assert(FORMAT@[0] == 0x66 && FORMAT@[1] == 0x6D && FORMAT@[2] == 0x74 && FORMAT@[3] == 0x20);
    assert(DATA@[0] == 0x64 && DATA@[1] == 0x61 && DATA@[2] == 0x74 && DATA@[3] == 0x61);
    four_letters(wav, pos, FORMAT@);
    four_letters(wav, pos, DATA@);
}

proof fn four_letters(bytes: Seq<u8>, at: int, tag: Seq<u8>)
    ensures
        tagged(bytes, at, tag) <==> bytes[at] == tag[0] && bytes[at + 1] == tag[1] && bytes[at + 2]
            == tag[2] && bytes[at + 3] == tag[3],
{
    if tagged(bytes, at, tag) {
        assert(bytes[at + 0] == tag[0]);
        assert(bytes[at + 1] == tag[1]);
        assert(bytes[at + 2] == tag[2]);
        assert(bytes[at + 3] == tag[3]);
    }
    if bytes[at] == tag[0] && bytes[at + 1] == tag[1] && bytes[at + 2] == tag[2] && bytes[at + 3]
        == tag[3] {
        assert forall|i: int| 0 <= i < 4 implies bytes[at + i] == #[trigger] tag[i] by {
            assert(i == 0 || i == 1 || i == 2 || i == 3);
        }
    }
}

/// What is left of a file once it is too short for a part, or once a part would
/// reach beyond its end, says nothing more.
pub proof fn file_ends_with_its_last_whole_part(wav: Seq<u8>, pos: int, known: Layout)
    requires
        0 <= pos,
        pos + 8 > wav.len() || {
            let end = pos + 8 + wav[pos + 4] + 0x100 * wav[pos + 5] + 0x1_0000 * wav[pos + 6]
                + 0x100_0000 * wav[pos + 7];
            wav.len() < end <= usize::MAX
        },
    ensures
        walked(wav, pos, known) == Some(known),
{
}

/// A file has samples where it starts with RIFF, has WAVE behind its length, and
/// what its parts from the twelfth byte on say is the encoding one with sixteen
/// bits; they are then where its data is. No other file has any.
pub proof fn plain_samples_are_found(wav: Seq<u8>)
    ensures
        ({
            let named = wav.len() >= 12 && wav[0] == 0x52 && wav[1] == 0x49 && wav[2] == 0x46
                && wav[3] == 0x46 && wav[8] == 0x57 && wav[9] == 0x41 && wav[10] == 0x56 && wav[11]
                == 0x45;
            let layout = walked(wav, 12, Layout { format: None, data: None });
            &&& !named ==> samples_of(wav) is None
            &&& named && layout is None ==> samples_of(wav) is None
            &&& named && layout is Some && layout->0.format == Some((1int, 16int)) ==> samples_of(
                wav,
            ) == layout->0.data
            &&& named && layout is Some && layout->0.format != Some((1int, 16int)) ==> samples_of(
                wav,
            ) is None
        }),
{
    assert(RIFF@[0] == 0x52 && RIFF@[1] == 0x49 && RIFF@[2] == 0x46 && RIFF@[3] == 0x46);
    assert(WAVE@[0] == 0x57 && WAVE@[1] == 0x41 && WAVE@[2] == 0x56 && WAVE@[3] == 0x45);
    four_letters(wav, 0, RIFF@);
    four_letters(wav, 8, WAVE@);
}

proof fn digit_is_small(n: int)
    requires
        n >= 0,
    ensures
        last_digit(n) >= 1,
        last_digit(n) == 1 || 0x80_0000 * last_digit(n) <= n,
        n < 0x100_0000 ==> last_digit(n) == 1,
    decreases n,
{
    if n >= 0x100_0000 {
        digit_is_small(n / 2);
    }
}

proof fn nearest_is_near(n: int, d: int)
    requires
        n >= 0,
        d > 0,
    ensures
        -d <= 2 * (nearest(n, d) * d - n) <= d,
        nearest(n, d) >= 0,
{
    let q = n / d;
    vstd::arithmetic::div_mod::lemma_fundamental_div_mod(n, d);
    assert(d * q == q * d && (q + 1) * d == q * d + d) by (nonlinear_arith);
    vstd::arithmetic::div_mod::lemma_div_pos_is_pos(n, d);
}

proof fn share_is_near(volume_percent: u8)
    requires
        volume_percent <= 100,
    ensures
        -6400 <= 100 * share(volume_percent) - volume_percent * 0x4000_0000 <= 6400,
        0 <= share(volume_percent) <= 0x4000_0000,
{
    share_stays_below(volume_percent);
    let whole = volume_percent * 0x4000_0000;
    let unit = last_digit(whole / 100);
    digit_is_small(whole / 100);
    assert(unit <= 128);
    nearest_is_near(whole, 100 * unit);
    let q = nearest(whole, 100 * unit);
    assert(q * (100 * unit) == 100 * (q * unit)) by (nonlinear_arith);
}

/// A sample at a volume is that percentage of it, to the nearest whole number:
/// no other is nearer.
pub proof fn sample_is_its_percentage(sample: i16, volume_percent: u8)
    requires
        volume_percent <= 100,
    ensures
        -50 <= 100 * at_share(sample as int, share(volume_percent)) - sample * volume_percent <= 50,
{
    share_is_near(volume_percent);
    sample_stays_below(sample, volume_percent);
    let part = share(volume_percent);
    let size: int = if sample < 0 {
        -(sample as int)
    } else {
        sample as int
    };
    let n = size * part;
    assert(0 <= n <= 0x8000 * 0x4000_0000) by (nonlinear_arith)
        requires
            0 <= size <= 0x8000,
            0 <= part <= 0x4000_0000,
            n == size * part,
    ;
    digit_is_small(n);
    let d = last_digit(n);
    assert(d <= 0x40_0000);
    nearest_is_near(n, d);
    let r = rounded(n);
    let scaled = (r + 0x2000_0000) / 0x4000_0000;
    assert(-0x20_0000 <= r - n <= 0x20_0000);
    let off = 100 * part - volume_percent * 0x4000_0000;
    assert(100 * n - (size * volume_percent) * 0x4000_0000 == size * off) by (nonlinear_arith)
        requires
            n == size * part,
            off == 100 * part - volume_percent * 0x4000_0000,
    ;
    assert(-6400 * 0x8000 <= size * off <= 6400 * 0x8000) by (nonlinear_arith)
        requires
            0 <= size <= 0x8000,
            -6400 <= off <= 6400,
    ;
    assert(0x4000_0000 * scaled <= r + 0x2000_0000 < 0x4000_0000 * scaled + 0x4000_0000);
    assert(-50 <= 100 * scaled - size * volume_percent <= 50);
    assert(size * volume_percent <= 100 * size) by (nonlinear_arith)
        requires
            0 <= size,
            volume_percent <= 100,
    ;
    assert(scaled <= size);
    assert(at_share(sample as int, part) == (if sample < 0 {
        -scaled
    } else {
        scaled
    }));
    assert(size * volume_percent == (if sample < 0 {
        -(sample * volume_percent)
    } else {
        sample * volume_percent
    })) by (nonlinear_arith)
        requires
            size == (if sample < 0 {
                -(sample as int)
            } else {
                sample as int
            }),
    ;
}

proof fn loud_share_is_near(volume_percent: u8)
    ensures
        -16300 <= 100 * share(volume_percent) - volume_percent * 0x4000_0000 <= 16300,
        share(volume_percent) >= 0,
{
    let whole = volume_percent * 0x4000_0000;
    let unit = last_digit(whole / 100);
    digit_is_small(whole / 100);
    assert(unit <= 326);
    nearest_is_near(whole, 100 * unit);
    let q = nearest(whole, 100 * unit);
    assert(q * (100 * unit) == 100 * (q * unit)) by (nonlinear_arith);
    assert(q * unit >= 0) by (nonlinear_arith)
        requires
            q >= 0,
            unit >= 1,
    ;
}

/// At any volume, a louder one than the full one too, a sample is that percentage
/// of it to the nearest whole number, or is held at the end of what a sample can be
/// where the percentage lies beyond.
pub proof fn loud_sample_is_its_percentage_or_held(sample: i16, volume_percent: u8)
    ensures
        ({
            let r = at_share(sample as int, share(volume_percent));
            let n = sample * volume_percent;
            ||| -50 <= 100 * r - n <= 50
            ||| r == 0x7FFF && n > 100 * 0x7FFF
            ||| r == -0x8000 && n < -100 * 0x8000
        }),
{
    loud_share_is_near(volume_percent);
    let part = share(volume_percent);
    let size: int = if sample < 0 {
        -(sample as int)
    } else {
        sample as int
    };
    let n = size * part;
    assert(part <= 2_738_041_979);
    assert(0 <= n <= 0x8000 * 2_738_041_979) by (nonlinear_arith)
        requires
            0 <= size <= 0x8000,
            0 <= part <= 2_738_041_979,
            n == size * part,
    ;
    digit_is_small(n);
    let d = last_digit(n);
    assert(d <= 10_695_476);
    nearest_is_near(n, d);
    let r = rounded(n);
    let scaled = (r + 0x2000_0000) / 0x4000_0000;
    let off = 100 * part - volume_percent * 0x4000_0000;
    assert(100 * n - (size * volume_percent) * 0x4000_0000 == size * off) by (nonlinear_arith)
        requires
            n == size * part,
            off == 100 * part - volume_percent * 0x4000_0000,
    ;
    assert(-16300 * 0x8000 <= size * off <= 16300 * 0x8000) by (nonlinear_arith)
        requires
            0 <= size <= 0x8000,
            -16300 <= off <= 16300,
    ;
    assert(0x4000_0000 * scaled <= r + 0x2000_0000 < 0x4000_0000 * scaled + 0x4000_0000);
    assert(-50 <= 100 * scaled - size * volume_percent <= 50);
    assert(size * volume_percent == (if sample < 0 {
        -(sample * volume_percent)
    } else {
        sample * volume_percent
    })) by (nonlinear_arith)
        requires
            size == (if sample < 0 {
                -(sample as int)
            } else {
                sample as int
            }),
    ;
}

/// Half a sample at the end stays as it is.
pub proof fn half_a_sample_stays(wav: Seq<u8>, volume_percent: u8)
    requires
        samples_of(wav) is Some,
    ensures
        ({
            let (start, end) = samples_of(wav)->0;
            (end - start) % 2 == 1 ==> scaled_wav(wav, volume_percent)->0[end - 1] == wav[end - 1]
        }),
{
    walked_stays_within(wav, 12, Layout { format: None, data: None });
}

} // verus!
