//! Pictures on the clipboard.

use vstd::prelude::*;

use crate::bytes::{le16, le32, le32_bytes, push_u32, read_u32};
use crate::error::Win32Error;
use crate::path::{extension, path_extension};
use crate::text::{chars_of, is_same_ignoring_case, same_ignoring_case};

verus! {

/// The files that can become a sticker, by extension.
pub const IMAGE_EXTENSIONS: [&'static str; 6] = ["png", "jpg", "jpeg", "webp", "bmp", "gif"];

/// What is wrong with a bitmap from the clipboard.
#[derive(Debug, Clone, Copy, PartialEq, Eq, Structural)]
pub enum DibFault {
    /// It ends before a field that every header has.
    Truncated,
    /// Its header is of no known length.
    UnknownHeader,
    /// It ends before its header does.
    ShorterThanHeader,
    /// Its palette would not fit into memory.
    PaletteTooLarge,
    /// It ends before its palette does.
    TruncatedPalette,
    /// Its memory could not be read.
    Unreadable,
}

/// What was found on the clipboard for a new sticker.
#[derive(Debug, Clone, PartialEq, Eq)]
pub enum ClipboardImage {
    /// A whole PNG file.
    Png(Vec<u8>),
    /// A whole BMP file, made from a bitmap.
    Bmp(Vec<u8>),
    /// The paths of picture files.
    Files(Vec<String>),
}

/// An extension of a picture file, in either case.
pub open spec fn image_extension(e: Seq<char>) -> bool {
    exists|i: int|
        0 <= i < IMAGE_EXTENSIONS@.len() && same_ignoring_case(
            e,
            (#[trigger] IMAGE_EXTENSIONS@[i])@,
        )
}

/// A path to a picture file.
pub open spec fn image_path(path: Seq<char>) -> bool {
    extension(path) matches Some(e) && image_extension(e)
}

/// Whether a path leads to a picture file, by its extension.
pub fn is_supported_image(path: &str) -> (r: bool)
    ensures
        r == image_path(path@),
{
    match path_extension(&chars_of(path)) {
        Some(e) => {
            let mut i: usize = 0;
            while i < 6
                invariant
                    i <= 6,
                    IMAGE_EXTENSIONS@.len() == 6,
                    extension(path@) == Some(e@),
                    forall|j: int|
                        0 <= j < i ==> !same_ignoring_case(
                            e@,
                            (#[trigger] IMAGE_EXTENSIONS@[j])@,
                        ),
                decreases 6 - i,
            {
                if is_same_ignoring_case(&e, IMAGE_EXTENSIONS[i]) {
                    return true;
                }
                i = i + 1;
            }
            false
        },
        None => false,
    }
}

/// Length of the header that a bitmap file has and a bitmap on the clipboard
/// has not.
pub const FILE_HEADER_SIZE: usize = 14;

/// Three channel masks follow the short header.
pub const BI_BITFIELDS: u32 = 3;

/// Four channel masks follow the short header.
pub const BI_ALPHABITFIELDS: u32 = 6;

/// What a bitmap says of itself at its start.
pub struct DibLayout {
    pub header: int,
    pub masks: int,
    pub palette: int,
}

impl DibLayout {
    /// Where the pixels start.
    pub open spec fn pixels_at(self) -> int {
        self.header + self.masks + self.palette
    }
}

/// The layout of a bitmap: the masks stand behind the header only where that is
/// the short one, and there is a palette only up to eight bits for a pixel,
/// with as many colours as the bitmap says or else as it can tell apart.
pub open spec fn dib_layout(dib: Seq<u8>) -> DibLayout {
    let header = le32(dib, 0);
    let bit_count = le16(dib, 14);
    let compression = le32(dib, 16);
    let used = le32(dib, 32);
    DibLayout {
        header,
        masks: if header != 40 {
            0
        } else if compression == BI_BITFIELDS {
            12
        } else if compression == BI_ALPHABITFIELDS {
            16
        } else {
            0
        },
        palette: if bit_count > 8 {
            0
        } else if used != 0 {
            4 * used
        } else {
            4 * power_of_two(bit_count)
        },
    }
}

/// Two to the power of `n`.
pub open spec fn power_of_two(n: int) -> int
    decreases n,
{
    if n <= 0 {
        1
    } else {
        2 * power_of_two(n - 1)
    }
}

/// What is wrong with a bitmap, the first fault that shows.
pub open spec fn dib_fault(dib: Seq<u8>) -> Option<DibFault> {
    let header = le32(dib, 0);
    let layout = dib_layout(dib);
    if dib.len() < 4 {
        Some(DibFault::Truncated)
    } else if header != 40 && header != 108 && header != 124 {
        Some(DibFault::UnknownHeader)
    } else if dib.len() < header {
        Some(DibFault::ShorterThanHeader)
    } else if layout.pixels_at() > usize::MAX {
        Some(DibFault::PaletteTooLarge)
    } else if dib.len() < layout.pixels_at() {
        Some(DibFault::TruncatedPalette)
    } else {
        None
    }
}

/// The file made from a bitmap: a header that tells the file's length and where
/// the pixels start, then the bitmap as it is.
pub open spec fn bmp_file(dib: Seq<u8>) -> Seq<u8> {
    seq![0x42u8, 0x4Du8] + le32_bytes((FILE_HEADER_SIZE + dib.len()) as u32) + seq![
        0u8,
        0u8,
        0u8,
        0u8,
    ] + le32_bytes((FILE_HEADER_SIZE + dib_layout(dib).pixels_at()) as u32) + dib
}

fn power_to_eight(n: u32) -> (r: u32)
    requires
        n <= 8,
    ensures
        r == power_of_two(n as int),
        r <= 256,
{
    let mut p: u32 = 1;
    let mut i: u32 = 0;
    while i < n
        invariant
            i <= n <= 8,
            p == power_of_two(i as int),
            i == 0 ==> p == 1,
            i == 1 ==> p == 2,
            i == 2 ==> p == 4,
            i == 3 ==> p == 8,
            i == 4 ==> p == 16,
            i == 5 ==> p == 32,
            i == 6 ==> p == 64,
            i == 7 ==> p == 128,
            i == 8 ==> p == 256,
        decreases n - i,
    {
        p = p * 2;
        i = i + 1;
    }
    p
}

/// Make a file from a bitmap on the clipboard. Headers of three lengths are
/// known.
pub fn dib_to_bmp(dib: &[u8]) -> (r: Result<Vec<u8>, Win32Error>)
    requires
        dib@.len() + FILE_HEADER_SIZE <= usize::MAX,
    ensures
        match dib_fault(dib@) {
            Some(fault) => r == Err::<Vec<u8>, Win32Error>(
                Win32Error::ClipboardDataCorrupt(fault),
            ),
            None => r matches Ok(file) && file@ == bmp_file(dib@),
        },
{
    if dib.len() < 4 {
        return Err(Win32Error::ClipboardDataCorrupt(DibFault::Truncated));
    }
    let header: u32 = read_u32(dib, 0);
    if header != 40 && header != 108 && header != 124 {
        return Err(Win32Error::ClipboardDataCorrupt(DibFault::UnknownHeader));
    }
    if dib.len() < header as usize {
        return Err(Win32Error::ClipboardDataCorrupt(DibFault::ShorterThanHeader));
    }
    let bit_count: u32 = dib[14] as u32 + 256 * dib[15] as u32;
    let compression: u32 = read_u32(dib, 16);
    let used: u32 = read_u32(dib, 32);
    let masks: u64 = if header != 40 {
        0
    } else if compression == BI_BITFIELDS {
        12
    } else if compression == BI_ALPHABITFIELDS {
        16
    } else {
        0
    };
    let colors: u32 = if bit_count > 8 {
        0
    } else if used != 0 {
        used
    } else {
        power_to_eight(bit_count)
    };
    let pixels_at: u64 = header as u64 + masks + 4 * colors as u64;
    if pixels_at > usize::MAX as u64 {
        return Err(Win32Error::ClipboardDataCorrupt(DibFault::PaletteTooLarge));
    }
    if (dib.len() as u64) < pixels_at {
        return Err(Win32Error::ClipboardDataCorrupt(DibFault::TruncatedPalette));
    }
    let mut file: Vec<u8> = Vec::new();
    file.push(0x42);
    file.push(0x4D);
    push_u32(&mut file, (FILE_HEADER_SIZE + dib.len()) as u32);
    file.push(0);
    file.push(0);
    file.push(0);
    file.push(0);
    push_u32(&mut file, (FILE_HEADER_SIZE + pixels_at as usize) as u32);
    let ghost head = file@;
    let mut i: usize = 0;
    while i < dib.len()
        invariant
            i <= dib.len(),
            file@ =~= head + dib@.take(i as int),
        decreases dib.len() - i,
    {
        file.push(dib[i]);
        i = i + 1;
    }
    assert(file@ =~= bmp_file(dib@));
    Ok(file)
}

proof fn power_is_positive(n: int)
    ensures
        power_of_two(n) >= 1,
    decreases n,
{
    if n > 0 {
        power_is_positive(n - 1);
    }
}

proof fn bytes_are_read_back(n: u32, bytes: Seq<u8>, at: int)
    requires
        bytes[at] == le32_bytes(n)[0],
        bytes[at + 1] == le32_bytes(n)[1],
        bytes[at + 2] == le32_bytes(n)[2],
        bytes[at + 3] == le32_bytes(n)[3],
    ensures
        le32(bytes, at) == n,
{
}

proof fn pixels_start_inside(dib: Seq<u8>)
    requires
        dib_fault(dib) is None,
    ensures
        0 <= dib_layout(dib).pixels_at() <= dib.len(),
{
    power_is_positive(le16(dib, 14));
}

/// The file keeps the bitmap byte for byte, and its header leads to the pixels
/// inside it. Files too long for their own length field are left out.
pub proof fn bmp_file_keeps_the_bitmap(dib: Seq<u8>)
    requires
        dib_fault(dib) is None,
        FILE_HEADER_SIZE + dib.len() <= u32::MAX,
    ensures
        bmp_file(dib).len() == FILE_HEADER_SIZE + dib.len(),
        bmp_file(dib).subrange(FILE_HEADER_SIZE as int, bmp_file(dib).len() as int) == dib,
        le32(bmp_file(dib), 2) == bmp_file(dib).len(),
        le32(bmp_file(dib), 10) == FILE_HEADER_SIZE + dib_layout(dib).pixels_at(),
        le32(bmp_file(dib), 10) <= bmp_file(dib).len(),
{
    pixels_start_inside(dib);
    let pixels_at = dib_layout(dib).pixels_at();
    let size = (FILE_HEADER_SIZE + dib.len()) as u32;
    let at = (FILE_HEADER_SIZE + pixels_at) as u32;
    let file = seq![0x42u8, 0x4Du8] + le32_bytes(size) + seq![0u8, 0u8, 0u8, 0u8] + le32_bytes(at)
        + dib;
    assert(file == bmp_file(dib));
    assert(file.subrange(FILE_HEADER_SIZE as int, file.len() as int) =~= dib);
    bytes_are_read_back(size, file, 2);
    bytes_are_read_back(at, file, 10);
}

/// How often the clipboard is tried: other programs hold it for moments.
pub const OPEN_ATTEMPTS: u32 = 25;

/// How long to wait between two attempts, in milliseconds.
pub const OPEN_PAUSE_MS: u64 = 20;

/// What to do after an attempt to open the clipboard.
#[derive(Debug, Clone, Copy, PartialEq, Eq, Structural)]
pub enum OpenStep {
    /// It is open.
    Done,
    /// Wait for so many milliseconds, then try again.
    Wait(u64),
    /// Give up: somebody else keeps it.
    Busy,
}

/// What to do after an attempt, counted from zero.
pub open spec fn spec_after_attempt(attempt: u32, opened: bool) -> OpenStep {
    if opened {
        OpenStep::Done
    } else if attempt + 1 < OPEN_ATTEMPTS {
        OpenStep::Wait(OPEN_PAUSE_MS)
    } else {
        OpenStep::Busy
    }
}

/// What to do after an attempt, counted from zero.
pub fn after_attempt(attempt: u32, opened: bool) -> (r: OpenStep)
    ensures
        r == spec_after_attempt(attempt, opened),
        r == (if opened {
            OpenStep::Done
        } else if attempt + 1 < OPEN_ATTEMPTS {
            OpenStep::Wait(OPEN_PAUSE_MS)
        } else {
            OpenStep::Busy
        }),
{
    if opened {
        OpenStep::Done
    } else if attempt < OPEN_ATTEMPTS - 1 {
        OpenStep::Wait(OPEN_PAUSE_MS)
    } else {
        OpenStep::Busy
    }
}

/// What to look for on the clipboard, best first: a PNG keeps its transparency
/// for certain, then the newer bitmap, the older one, and last the files.
#[derive(Debug, Clone, Copy, PartialEq, Eq, Structural)]
pub enum Source {
    Png,
    DibV5,
    Dib,
    Files,
}

/// What a look at the clipboard gave.
#[derive(Debug, PartialEq, Eq)]
pub enum Look {
    Found(ClipboardImage),
    /// Not there; look for this next.
    Next(Source),
}

/// Where the look starts: with PNG, unless the system has no such format.
pub open spec fn spec_first_source(png_known: bool) -> Source {
    if png_known {
        Source::Png
    } else {
        Source::DibV5
    }
}

/// Where the look starts: with PNG, unless the system has no such format.
pub fn first_source(png_known: bool) -> (r: Source)
    ensures
        r == spec_first_source(png_known),
        r == (if png_known {
            Source::Png
        } else {
            Source::DibV5
        }),
{
    if png_known {
        Source::Png
    } else {
        Source::DibV5
    }
}

/// The source to look for after this one.
pub open spec fn after_source(source: Source) -> Source {
    match source {
        Source::Png => Source::DibV5,
        Source::DibV5 => Source::Dib,
        Source::Dib => Source::Files,
        Source::Files => Source::Files,
    }
}

/// Take up the bytes of a source that is no list of files, where it is there. A
/// bitmap that is no good ends the look: nothing worse is taken in its stead.
pub fn look_at_bytes(source: Source, bytes: Option<Vec<u8>>) -> (r: Result<Look, Win32Error>)
    requires
        !(source is Files),
        bytes matches Some(b) ==> b@.len() + FILE_HEADER_SIZE <= usize::MAX,
    ensures
        match bytes {
            Some(b) => if source is Png {
                r == Ok::<Look, Win32Error>(Look::Found(ClipboardImage::Png(b)))
            } else {
                match dib_fault(b@) {
                    Some(fault) => r == Err::<Look, Win32Error>(
                        Win32Error::ClipboardDataCorrupt(fault),
                    ),
                    None => r matches Ok(Look::Found(ClipboardImage::Bmp(file))) && file@
                        == bmp_file(b@),
                }
            },
            None => r == Ok::<Look, Win32Error>(Look::Next(after_source(source))),
        },
{
    match bytes {
        Some(b) => match source {
            Source::Png => Ok(Look::Found(ClipboardImage::Png(b))),
            _ => match dib_to_bmp(b.as_slice()) {
                Ok(file) => Ok(Look::Found(ClipboardImage::Bmp(file))),
                Err(e) => Err(e),
            },
        },
        None => Ok(
            Look::Next(
                match source {
                    Source::Png => Source::DibV5,
                    Source::DibV5 => Source::Dib,
                    _ => Source::Files,
                },
            ),
        ),
    }
}

/// The texts of a list.
pub open spec fn texts(list: Seq<String>) -> Seq<Seq<char>> {
    Seq::new(list.len(), |i: int| list[i]@)
}

/// The paths that lead to picture files, in order.
pub open spec fn image_paths(paths: Seq<Seq<char>>) -> Seq<Seq<char>> {
    paths.filter(|p: Seq<char>| image_path(p))
}

/// Keep the paths that lead to picture files.
pub fn keep_images(paths: Vec<String>) -> (r: Vec<String>)
    ensures
        texts(r@) == image_paths(texts(paths@)),
{
    let mut out: Vec<String> = Vec::new();
    let ghost all = texts(paths@);
    let ghost pick = |p: Seq<char>| image_path(p);
    let mut i: usize = 0;
    proof {
        reveal(Seq::filter);
        assert(all.take(0) =~= Seq::<Seq<char>>::empty());
        assert(texts(out@) =~= image_paths(all.take(0)));
    }
    while i < paths.len()
        invariant
            i <= paths.len(),
            all == texts(paths@),
            pick == (|p: Seq<char>| image_path(p)),
            texts(out@) == all.take(i as int).filter(pick),
        decreases paths.len() - i,
    {
        let ghost before = out@;
        proof {
            reveal(Seq::filter);
            let head = all.take(i + 1);
            assert(head.drop_last() =~= all.take(i as int));
            assert(head.last() == paths@[i as int]@);
        }
        if is_supported_image(paths[i].as_str()) {
            out.push(paths[i].clone());
            assert(texts(out@) =~= texts(before).push(paths@[i as int]@));
        }
        i = i + 1;
    }
    assert(all.take(all.len() as int) =~= all);
    out
}

/// Take up the list of files, where it is there. A list without pictures is as
/// good as none.
pub fn look_at_files(paths: Option<Vec<String>>) -> (r: Option<ClipboardImage>)
    ensures
        match paths {
            Some(p) => if image_paths(texts(p@)).len() == 0 {
                r is None
            } else {
                r matches Some(ClipboardImage::Files(kept)) && texts(kept@) == image_paths(
                    texts(p@),
                )
            },
            None => r is None,
        },
{
    match paths {
        Some(p) => {
            let kept = keep_images(p);
            assert(texts(kept@).len() == kept@.len());
            if kept.len() == 0 {
                None
            } else {
                Some(ClipboardImage::Files(kept))
            }
        },
        None => None,
    }
}

/// Where the pixels start is told in the file's bytes 10 to 13, the low one
/// first: behind the file header of 14 bytes and the bitmap's own header, and with
/// at most eight bits for a pixel behind its palette too. Masks stand between only
/// behind a header of 40 bytes, 12 bytes of them with the compression 3 and 16
/// with the compression 6; in the longer headers they are part of the header,
/// whatever the compression.
pub proof fn pixels_follow_header_masks_and_palette(dib: Seq<u8>, colors: int)
    requires
        dib_fault(dib) is None,
        14 + dib.len() <= u32::MAX,
        ({
            let bits = dib[14] + 256 * dib[15];
            let used = dib[32] + 0x100 * dib[33] + 0x1_0000 * dib[34] + 0x100_0000 * dib[35];
            &&& bits > 8 ==> colors == 0
            &&& bits <= 8 && used != 0 ==> colors == used
            &&& bits <= 8 && used == 0 ==> (bits == 0 && colors == 1) || (bits == 1 && colors == 2)
                || (bits == 2 && colors == 4) || (bits == 3 && colors == 8) || (bits == 4 && colors
                == 16) || (bits == 5 && colors == 32) || (bits == 6 && colors == 64) || (bits == 7
                && colors == 128) || (bits == 8 && colors == 256)
        }),
    ensures
        ({
            let header = dib[0] + 0x100 * dib[1] + 0x1_0000 * dib[2] + 0x100_0000 * dib[3];
            let compression = dib[16] + 0x100 * dib[17] + 0x1_0000 * dib[18] + 0x100_0000 * dib[19];
            let file = bmp_file(dib);
            let pixels = file[10] + 0x100 * file[11] + 0x1_0000 * file[12] + 0x100_0000 * file[13];
            &&& header == 40 || header == 108 || header == 124
            &&& header == 108 || header == 124 ==> pixels == 14 + header + 4 * colors
            &&& header == 40 && compression == 3 ==> pixels == 14 + 40 + 12 + 4 * colors
            &&& header == 40 && compression == 6 ==> pixels == 14 + 40 + 16 + 4 * colors
            &&& header == 40 && compression != 3 && compression != 6 ==> pixels == 14 + 40 + 4
                * colors
        }),
{
    reveal_with_fuel(power_of_two, 10);
    bmp_file_keeps_the_bitmap(dib);
}

/// The file starts with the letters B and M, then says how long it is, the low
/// byte first, then has four bytes of zero; behind the fourteenth byte comes the
/// bitmap as it is.
pub proof fn file_starts_with_its_header(dib: Seq<u8>, i: int)
    requires
        dib_fault(dib) is None,
        14 + dib.len() <= u32::MAX,
        0 <= i < dib.len(),
    ensures
        ({
            let file = bmp_file(dib);
            &&& file.len() == 14 + dib.len()
            &&& file[0] == 0x42 && file[1] == 0x4D
            &&& file[2] + 0x100 * file[3] + 0x1_0000 * file[4] + 0x100_0000 * file[5] == file.len()
            &&& file[6] == 0 && file[7] == 0 && file[8] == 0 && file[9] == 0
            &&& file[14 + i] == dib[i]
        }),
{
    bmp_file_keeps_the_bitmap(dib);
}

/// What is wrong with a bitmap, by its length and its header's: too short to say
/// the latter, a length other than 40, 108 and 124, an end inside the header, a
/// palette or masks that reach beyond what memory can hold or beyond its end.
/// Any other bitmap is good.
pub proof fn bitmap_is_good_or_has_its_fault(dib: Seq<u8>, colors: int, masks: int)
    requires
        dib.len() >= 40 ==> {
            let header = dib[0] + 0x100 * dib[1] + 0x1_0000 * dib[2] + 0x100_0000 * dib[3];
            let bits = dib[14] + 256 * dib[15];
            let compression = dib[16] + 0x100 * dib[17] + 0x1_0000 * dib[18] + 0x100_0000 * dib[19];
            let used = dib[32] + 0x100 * dib[33] + 0x1_0000 * dib[34] + 0x100_0000 * dib[35];
            &&& bits > 8 ==> colors == 0
            &&& bits <= 8 && used != 0 ==> colors == used
            &&& bits <= 8 && used == 0 ==> (bits == 0 && colors == 1) || (bits == 1 && colors == 2)
                || (bits == 2 && colors == 4) || (bits == 3 && colors == 8) || (bits == 4 && colors
                == 16) || (bits == 5 && colors == 32) || (bits == 6 && colors == 64) || (bits == 7
                && colors == 128) || (bits == 8 && colors == 256)
            &&& header == 40 && compression == 3 ==> masks == 12
            &&& header == 40 && compression == 6 ==> masks == 16
            &&& header != 40 || (compression != 3 && compression != 6) ==> masks == 0
        },
    ensures
        ({
            let header = dib[0] + 0x100 * dib[1] + 0x1_0000 * dib[2] + 0x100_0000 * dib[3];
            let known = header == 40 || header == 108 || header == 124;
            let start = header + masks + 4 * colors;
            &&& dib.len() < 4 <==> dib_fault(dib) == Some(DibFault::Truncated)
            &&& dib.len() >= 4 && !known <==> dib_fault(dib) == Some(DibFault::UnknownHeader)
            &&& dib.len() >= 4 && known && dib.len() < header <==> dib_fault(dib) == Some(
                DibFault::ShorterThanHeader,
            )
            &&& dib.len() >= 4 && known && dib.len() >= header ==> {
                &&& start > usize::MAX <==> dib_fault(dib) == Some(DibFault::PaletteTooLarge)
                &&& start <= usize::MAX && dib.len() < start <==> dib_fault(dib) == Some(
                    DibFault::TruncatedPalette,
                )
                &&& start <= usize::MAX && dib.len() >= start <==> dib_fault(dib) is None
            }
        }),
{
    reveal_with_fuel(power_of_two, 10);
}

/// After PNG the newer bitmap is looked for, after that the older one, and then
/// the files.
pub proof fn sources_come_best_first(source: Source)
    ensures
        after_source(source) is DibV5 <==> source is Png,
        after_source(source) is Dib <==> source is DibV5,
        after_source(source) is Files <==> source is Dib || source is Files,
{
}

/// The files that can become a sticker end in png, jpg, jpeg, webp, bmp or gif,
/// in either case, and no others can.
pub proof fn pictures_are_known_by_extension(e: Seq<char>)
    ensures
        image_extension(e) <==> same_ignoring_case(e, "png"@) || same_ignoring_case(e, "jpg"@)
            || same_ignoring_case(e, "jpeg"@) || same_ignoring_case(e, "webp"@)
            || same_ignoring_case(e, "bmp"@) || same_ignoring_case(e, "gif"@),
{
    assert(IMAGE_EXTENSIONS@[0]@ == "png"@);
    assert(IMAGE_EXTENSIONS@[1]@ == "jpg"@);
    assert(IMAGE_EXTENSIONS@[2]@ == "jpeg"@);
    assert(IMAGE_EXTENSIONS@[3]@ == "webp"@);
    assert(IMAGE_EXTENSIONS@[4]@ == "bmp"@);
    assert(IMAGE_EXTENSIONS@[5]@ == "gif"@);
}

/// Of a list of paths those to pictures are kept, every one of them and no other,
/// in the order that they have.
pub proof fn pictures_are_kept_in_order(paths: Seq<Seq<char>>, path: Seq<char>)
    ensures
        image_paths(paths).contains(path) <==> paths.contains(path) && image_path(path),
        image_paths(paths.push(path)) == (if image_path(path) {
            image_paths(paths).push(path)
        } else {
            image_paths(paths)
        }),
        image_paths(Seq::empty()) == Seq::<Seq<char>>::empty(),
{
    reveal(Seq::filter);
    let pick = |p: Seq<char>| image_path(p);
    assert(paths.push(path).drop_last() =~= paths);
    if paths.contains(path) && image_path(path) {
        let i = choose|i: int| 0 <= i < paths.len() && paths[i] == path;
        assert(pick(paths[i]));
        paths.lemma_filter_contains(pick, i);
    }
    if image_paths(paths).contains(path) {
        let i = choose|i: int| 0 <= i < image_paths(paths).len() && image_paths(paths)[i] == path;
        paths.lemma_filter_pred(pick, i);
        kept_was_there(paths, i);
    }
}

proof fn kept_was_there(paths: Seq<Seq<char>>, i: int)
    requires
        0 <= i < image_paths(paths).len(),
    ensures
        paths.contains(image_paths(paths)[i]),
    decreases paths.len(),
{
    reveal(Seq::filter);
    if paths.len() > 0 {
        let head = paths.drop_last();
        if i < image_paths(head).len() {
            kept_was_there(head, i);
            let k = choose|k: int| 0 <= k < head.len() && head[k] == image_paths(head)[i];
            assert(paths[k] == image_paths(paths)[i]);
        } else {
            assert(paths[paths.len() - 1] == image_paths(paths)[i]);
        }
    }
}

/// A clipboard that stays shut is tried twenty-five times, twenty milliseconds
/// apart, and then given up; once it is open there is nothing to wait for.
pub proof fn clipboard_is_tried_twenty_five_times(attempt: u32, opened: bool)
    ensures
        spec_after_attempt(attempt, opened) is Done <==> opened,
        spec_after_attempt(attempt, opened) == OpenStep::Wait(20) <==> !opened && attempt <= 23,
        spec_after_attempt(attempt, opened) is Busy <==> !opened && attempt >= 24,
{
}

/// Every source is looked at once, from the first to the files: four of them where
/// the system knows PNG, and the three behind it where it does not.
pub proof fn every_source_has_its_turn(png_known: bool)
    ensures
        png_known ==> spec_first_source(png_known) is Png,
        !png_known ==> spec_first_source(png_known) is DibV5,
        after_source(after_source(after_source(Source::Png))) is Files,
        after_source(after_source(Source::DibV5)) is Files,
{
}

} // verus!
