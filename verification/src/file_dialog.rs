//! The dialog that asks for a file.

use vstd::prelude::*;

use crate::error::{hresult_from_win32, result_code, Win32Error};
use crate::text::{append, text_of};
use crate::utf16::{decoded, encoded_z, from_utf16, to_wide, well_paired};
use crate::winapi::ERROR_CANCELLED;

verus! {

/// The class of the dialog.
pub const CLSID_FILE_OPEN_DIALOG: u128 = 0xDC1C5A9C_E88A_4DDE_A5A1_60F82A20AEF7;

/// The result code of a dialog that the person has closed without a choice.
pub const ERROR_CANCELLED_HRESULT: i32 = -0x7FF8_FB39;

pub const IMAGE_FILTER_NAME: &'static str = "Images";

pub const IMAGE_FILTER_SPEC: &'static str = "*.png;*.jpg;*.jpeg;*.bmp;*.gif;*.webp";

pub const VIDEO_FILTER_NAME: &'static str = "Videos";

pub const ALL_MEDIA_FILTER_NAME: &'static str = "All supported files";

pub const PRESET_FILTER_NAME: &'static str = "Preset (*.json)";

pub const PRESET_FILTER_SPEC: &'static str = "*.json";

/// The masks of the first `n` extensions, with semicolons between them.
pub open spec fn masks(extensions: Seq<&'static str>, n: int) -> Seq<char>
    decreases n,
{
    if n <= 0 {
        seq![]
    } else {
        masks(extensions, n - 1) + (if n == 1 {
            "*."@
        } else {
            ";"@ + "*."@
        }) + extensions[n - 1]@
    }
}

fn append_masks(out: &mut Vec<char>, extensions: &Vec<&'static str>)
    ensures
        final(out)@ == old(out)@ + masks(extensions@, extensions@.len() as int),
{
    let mut i: usize = 0;
    while i < extensions.len()
        invariant
            i <= extensions@.len(),
            out@ == old(out)@ + masks(extensions@, i as int),
        decreases extensions.len() - i,
    {
        let ghost before = masks(extensions@, i as int);
        if i > 0 {
            append(out, ";");
        }
        append(out, "*.");
        append(out, extensions[i]);
        proof {
            let lead = if i == 0 {
                "*."@
            } else {
                ";"@ + "*."@
            };
            assert(out@ =~= old(out)@ + (before + lead + extensions@[i as int]@));
        }
        i = i + 1;
    }
}

/// The mask of the video files with these extensions.
pub fn video_filter_spec(extensions: &Vec<&'static str>) -> (r: String)
    ensures
        r@ == masks(extensions@, extensions@.len() as int),
{
    let mut out: Vec<char> = Vec::new();
    append_masks(&mut out, extensions);
    assert(out@ =~= masks(extensions@, extensions@.len() as int));
    text_of(&out)
}

/// The mask of all files that can become a sticker.
pub open spec fn all_masks(extensions: Seq<&'static str>) -> Seq<char> {
    IMAGE_FILTER_SPEC@ + ";"@ + masks(extensions, extensions.len() as int)
}

/// The mask of all files that can become a sticker.
pub fn all_media_filter_spec(extensions: &Vec<&'static str>) -> (r: String)
    ensures
        r@ == all_masks(extensions@),
{
    let mut out: Vec<char> = Vec::new();
    append(&mut out, IMAGE_FILTER_SPEC);
    append(&mut out, ";");
    append_masks(&mut out, extensions);
    assert(out@ =~= all_masks(extensions@));
    text_of(&out)
}

/// A name and a mask, each ended by a zero, as the dialog takes them.
#[derive(Debug, PartialEq, Eq)]
pub struct Filter {
    pub name: Vec<u16>,
    pub spec: Vec<u16>,
}

impl Filter {
    /// The filter is this.
    pub open spec fn is(self, name: Seq<char>, spec: Seq<char>) -> bool {
        self.name@ == encoded_z(name) && self.spec@ == encoded_z(spec)
    }

    /// A filter.
    pub fn new(name: &str, spec: &str) -> (r: Self)
        ensures
            r.is(name@, spec@),
    {
        Filter { name: to_wide(name), spec: to_wide(spec) }
    }
}

/// The filters for a sticker. The first is the one that the dialog opens with:
/// everything that can become a sticker.
pub fn media_filters(extensions: &Vec<&'static str>) -> (r: Vec<Filter>)
    ensures
        r@.len() == 3,
        r@[0].is(ALL_MEDIA_FILTER_NAME@, all_masks(extensions@)),
        r@[1].is(IMAGE_FILTER_NAME@, IMAGE_FILTER_SPEC@),
        r@[2].is(VIDEO_FILTER_NAME@, masks(extensions@, extensions@.len() as int)),
{
    let mut out: Vec<Filter> = Vec::new();
    let all = all_media_filter_spec(extensions);
    let video = video_filter_spec(extensions);
    out.push(Filter::new(ALL_MEDIA_FILTER_NAME, all.as_str()));
    out.push(Filter::new(IMAGE_FILTER_NAME, IMAGE_FILTER_SPEC));
    out.push(Filter::new(VIDEO_FILTER_NAME, video.as_str()));
    out
}

/// The filter for a preset.
pub fn preset_filters() -> (r: Vec<Filter>)
    ensures
        r@.len() == 1,
        r@[0].is(PRESET_FILTER_NAME@, PRESET_FILTER_SPEC@),
{
    let mut out: Vec<Filter> = Vec::new();
    out.push(Filter::new(PRESET_FILTER_NAME, PRESET_FILTER_SPEC));
    out
}

/// The code of a dialog that was closed without a choice is the system's code
/// for that as a result code.
pub proof fn cancelled_is_a_result_code()
    ensures
        ERROR_CANCELLED_HRESULT == result_code(ERROR_CANCELLED),
{
    assert(((1223u32 & 0xFFFF) | 0x8007_0000) as i32 == -0x7FF8_FB39i32) by (bit_vector);
    assert((1223u32 as i32) == 1223i32) by (bit_vector);
}

/// The dialog was closed without a choice.
pub open spec fn closed_without_choice(code: i32) -> bool {
    code == result_code(ERROR_CANCELLED)
}

/// The path that the person chose; none where the dialog was closed without a
/// choice. `shown` is what came of showing the dialog, `path` what came of
/// asking for the choice, which counts only where the dialog was shown.
pub fn picked(shown: Result<(), i32>, path: Result<Vec<u16>, i32>) -> (r: Result<
    Option<String>,
    Win32Error,
>)
    ensures
        r == Ok::<Option<String>, Win32Error>(None) <==> (shown matches Err(code)
            && closed_without_choice(code)),
        match (shown, path) {
            (Err(code), _) => if code == result_code(ERROR_CANCELLED) {
                r == Ok::<Option<String>, Win32Error>(None)
            } else {
                r == Err::<Option<String>, Win32Error>(Win32Error::Win32(code))
            },
            (Ok(_), Err(code)) => r == Err::<Option<String>, Win32Error>(Win32Error::Win32(code)),
            (Ok(_), Ok(units)) => if well_paired(units@) {
                r matches Ok(Some(text)) && text@ == decoded(units@)
            } else {
                r == Err::<Option<String>, Win32Error>(Win32Error::FileDialogPathInvalid)
            },
        },
{
    if let Err(code) = shown {
        if code == hresult_from_win32(ERROR_CANCELLED) {
            return Ok(None);
        }
        return Err(Win32Error::Win32(code));
    }
    match path {
        Ok(units) => match from_utf16(units.as_slice()) {
            Some(text) => Ok(Some(text)),
            None => Err(Win32Error::FileDialogPathInvalid),
        },
        Err(code) => Err(Win32Error::Win32(code)),
    }
}

/// The masks of a list of extensions: a star, a dot and the extension for each,
/// with a semicolon before every one but the first.
pub proof fn masks_are_star_and_extension(extensions: Seq<&'static str>, n: int)
    requires
        0 <= n < extensions.len(),
    ensures
        n == 0 ==> masks(extensions, 1) == seq!['*', '.'] + extensions[0]@,
        n > 0 ==> masks(extensions, n + 1) == masks(extensions, n) + seq![';', '*', '.']
            + extensions[n]@,
        masks(extensions, 0) == Seq::<char>::empty(),
{
    reveal_strlit("*.");
    reveal_strlit(";");
    assert("*."@ =~= seq!['*', '.']);
    assert(";"@ + "*."@ =~= seq![';', '*', '.']);
    assert(masks(extensions, 0) =~= Seq::<char>::empty());
    if n == 0 {
        assert(masks(extensions, 1) =~= seq!['*', '.'] + extensions[0]@);
    }
}

/// All files that can become a sticker are the pictures and then the videos, with
/// a semicolon between.
pub proof fn all_masks_are_pictures_and_videos(extensions: Seq<&'static str>)
    ensures
        all_masks(extensions) == IMAGE_FILTER_SPEC@ + seq![';'] + masks(
            extensions,
            extensions.len() as int,
        ),
{
    reveal_strlit(";");
    assert(";"@ =~= seq![';']);
}

/// The one code that means no choice is 0x800704C7; any other is a failure.
pub proof fn no_choice_has_one_code(code: i32)
    ensures
        closed_without_choice(code) <==> code == 0x8007_04C7 - 0x1_0000_0000,
{
    crate::error::result_code_by_number(1223);
}

} // verus!
