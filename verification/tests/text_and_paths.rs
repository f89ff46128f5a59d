use rst_win32::autostart::{is_enabled, run_value, set_enabled, win32_err};
use rst_win32::boot_session::{booted_at_unix_secs, current_stamp, shutdown_tag, BootStamp};
use rst_win32::bytes::{push_u32, read_u16, read_u32};
use rst_win32::error::{hresult_from_win32, Win32Error};
use rst_win32::file_dialog::{
    all_media_filter_spec, media_filters, picked, preset_filters, video_filter_spec, Filter,
    ALL_MEDIA_FILTER_NAME, CLSID_FILE_OPEN_DIALOG, ERROR_CANCELLED_HRESULT, IMAGE_FILTER_NAME,
    IMAGE_FILTER_SPEC, PRESET_FILTER_SPEC, VIDEO_FILTER_NAME,
};
use rst_win32::model::{Edges, MonitorId, Rect};
use rst_win32::monitors::{monitor_info, rect_px, snapshot, RawMonitor};
use rst_win32::path::path_extension;
use rst_win32::text::{
    append_decimal, chars_of, is_blank, is_same_ignoring_case, is_white, text_of, to_upper, trim,
};
use rst_win32::utf16::{from_utf16, from_utf16_lossy, to_wide, utf16, utf16z_to_string};

#[test]
fn to_wide_is_nul_terminated_ascii() {
    assert_eq!(
        to_wide("resticker"),
        [114, 101, 115, 116, 105, 99, 107, 101, 114, 0]
    );
}

#[test]
fn to_wide_empty_is_single_nul() {
    assert_eq!(to_wide(""), [0]);
}

#[test]
fn to_wide_encodes_non_ascii_as_utf16() {
    let wide = to_wide("стикер");
    assert_eq!(wide.len(), "стикер".chars().count() + 1);
    assert_eq!(wide[0], 0x0441);
    assert_eq!(wide.last(), Some(&0));
}

#[test]
fn units_of_text_are_those_of_the_standard_library() {
    for text in ["", "abc", "стикер", "😀 и 🗑", "\u{10FFFF}\u{E000}\u{D7FF}"] {
        let expected: Vec<u16> = text.encode_utf16().collect();
        assert_eq!(utf16(text), expected);
        assert_eq!(from_utf16_lossy(&expected), text);
        assert_eq!(from_utf16(&expected), Some(text.to_string()));
    }
}

#[test]
fn halves_that_stand_alone_are_replaced_or_refused() {
    let cases: Vec<Vec<u16>> = vec![
        vec![0xD800],
        vec![0xDC00],
        vec![0x41, 0xD83D, 0x42],
        vec![0xDE00, 0xD83D],
        vec![0xD83D, 0xD83D, 0xDE00],
    ];
    for units in cases {
        assert_eq!(from_utf16_lossy(&units), String::from_utf16_lossy(&units));
        assert_eq!(from_utf16(&units), None);
    }
}

fn utf16z(s: &str) -> Vec<u16> {
    s.encode_utf16().chain(std::iter::once(0)).collect()
}

#[test]
fn utf16z_trims_at_first_nul() {
    assert_eq!(
        utf16z_to_string(&utf16z("\\\\?\\DISPLAY#GSM5B09")),
        "\\\\?\\DISPLAY#GSM5B09"
    );
    let mut buf = utf16z("abc");
    buf.extend(utf16z("garbage"));
    assert_eq!(utf16z_to_string(&buf), "abc");
}

#[test]
fn utf16z_empty_and_unterminated() {
    assert_eq!(utf16z_to_string(&[0]), "");
    assert_eq!(utf16z_to_string(&[]), "");
    let buf: Vec<u16> = "xy".encode_utf16().collect();
    assert_eq!(utf16z_to_string(&buf), "xy");
}

#[test]
fn rect_px_primary_at_origin() {
    let rc = Edges { left: 0, top: 0, right: 1920, bottom: 1080 };
    assert_eq!(rect_px(rc), Rect { x: 0, y: 0, w: 1920, h: 1080 });
}

#[test]
fn rect_px_negative_virtual_desktop_coords() {
    let rc = Edges { left: -1280, top: 120, right: 0, bottom: 1144 };
    assert_eq!(rect_px(rc), Rect { x: -1280, y: 120, w: 1280, h: 1024 });
}

#[test]
fn rect_px_degenerate_clamps_to_zero() {
    let rc = Edges { left: 100, top: 100, right: 50, bottom: 100 };
    assert_eq!(rect_px(rc), Rect { x: 100, y: 100, w: 0, h: 0 });
}

fn raw_monitor(id: &str, name: &str, dpi: Option<u32>, flags: u32) -> RawMonitor {
    RawMonitor {
        device_id: utf16z(id),
        device_string: utf16z(name),
        bounds: Edges { left: -1280, top: 0, right: 0, bottom: 1024 },
        dpi,
        flags,
    }
}

#[test]
fn monitor_record_takes_over_what_is_told() {
    let info = monitor_info(&raw_monitor("\\\\?\\DISPLAY#A", "Main", Some(144), 1));
    assert_eq!(info.id, MonitorId("\\\\?\\DISPLAY#A".to_string()));
    assert_eq!(info.friendly_name, "Main");
    assert_eq!(info.bounds_px, Rect { x: -1280, y: 0, w: 1280, h: 1024 });
    assert_eq!(info.dpi, 144);
    assert!(info.is_primary);

    let info = monitor_info(&raw_monitor("B", "Second", None, 2));
    assert_eq!(info.dpi, 96);
    assert!(!info.is_primary);
}

#[test]
fn one_unreadable_monitor_spoils_the_snapshot() {
    let good = snapshot(&vec![
        Ok(raw_monitor("A", "a", None, 1)),
        Ok(raw_monitor("B", "b", None, 0)),
    ])
    .expect("both could be read");
    assert_eq!(good.len(), 2);
    assert_eq!(good[1].id, MonitorId("B".to_string()));

    let bad = snapshot(&vec![
        Ok(raw_monitor("A", "a", None, 1)),
        Err(-5),
        Err(-6),
    ]);
    assert_eq!(bad, Err(Win32Error::Win32(-5)));
    assert_eq!(snapshot(&vec![]), Ok(vec![]));
}

#[test]
fn blanks_are_those_of_the_standard_library() {
    for n in 0..=0x10FFFFu32 {
        if let Some(c) = char::from_u32(n) {
            assert_eq!(is_white(c), c.is_whitespace(), "U+{n:04X}");
        }
    }
    for text in ["  a b\t", "\u{3000}x\u{A0}", "", " \n ", "plain"] {
        assert_eq!(text_of(&trim(&chars_of(text))), text.trim());
        assert_eq!(is_blank(&chars_of(text)), text.trim().is_empty());
    }
}

#[test]
fn case_is_that_of_the_latin_letters() {
    assert_eq!(to_upper('q'), 'Q');
    assert_eq!(to_upper('й'), 'й');
    assert!(is_same_ignoring_case(&chars_of("CtRl"), "ctrl"));
    assert!(!is_same_ignoring_case(&chars_of("Ctrl "), "ctrl"));
}

#[test]
fn numbers_are_written_in_decimal() {
    for n in [0, 7, -7, 10, 12345, i32::MAX, i32::MIN] {
        let mut out = Vec::new();
        append_decimal(&mut out, n);
        assert_eq!(text_of(&out), format!("{n}"));
    }
}

#[test]
fn extension_is_that_of_the_last_component() {
    let ext = |p: &str| path_extension(&chars_of(p)).map(|e| text_of(&e));
    assert_eq!(ext("C:\\img\\cat.png"), Some("png".to_string()));
    assert_eq!(ext("C:\\img.d\\cat"), None);
    assert_eq!(ext(".png"), None);
    assert_eq!(ext("a.tar.gz"), Some("gz".to_string()));
    assert_eq!(ext("a."), Some("".to_string()));
    assert_eq!(ext(""), None);
    assert_eq!(ext("img/cat.png/./"), Some("png".to_string()));
    assert_eq!(ext("img/cat.png/.."), None);
}

#[test]
fn extension_is_none_of_the_root() {
    let ext = |p: &str| path_extension(&chars_of(p)).map(|e| text_of(&e));
    let png = || Some("png".to_string());
    assert_eq!(ext("C:cat.png"), png());
    assert_eq!(ext("/cat.png"), png());
    assert_eq!(ext(r"\\server\share\cat.png"), png());
    assert_eq!(ext(r"\\server\share.png"), None);
    assert_eq!(ext("//server/share.png/"), None);
    assert_eq!(ext(r"\\cat.png"), png());
    assert_eq!(ext(r"\\cat.png\"), png());
    assert_eq!(ext(r"\\\share.png"), png());
    assert_eq!(ext(r"\\server\\cat.png"), png());
    assert_eq!(ext(r"\\.\pipe.png"), None);
    assert_eq!(ext(r"\\.\pipe\cat.png"), png());
}

#[test]
fn extension_of_a_literal_path() {
    let ext = |p: &str| path_extension(&chars_of(p)).map(|e| text_of(&e));
    let png = || Some("png".to_string());
    assert_eq!(ext(r"\\?\C:\cat.png"), png());
    assert_eq!(ext(r"\\?\C:/cat.png"), png());
    assert_eq!(ext(r"\\?\C:/.png"), None);
    assert_eq!(ext(r"\\?\C:.png"), None);
    assert_eq!(ext(r"\\?\cat.png"), None);
    assert_eq!(ext(r"\\?\UNC\server\share.png"), None);
    assert_eq!(ext(r"\\?\UNC\server\share\cat.png"), png());
    assert_eq!(ext(r"\\?\UNC\server.png"), None);
    assert_eq!(ext(r"\\?\C:\img\a/.png"), png());
    assert_eq!(ext(r"\\?\C:\cat.png\"), png());
    assert_eq!(ext(r"\\?\C:\cat.png\."), None);
    assert_eq!(ext(r"\\?\C:\cat.png/."), Some("".to_string()));
    assert_eq!(ext("//?/C:/cat.png"), png());
    assert_eq!(ext("//?/cat.png"), None);
}

#[test]
fn words_are_read_low_byte_first() {
    let bytes = [0x34, 0x12, 0xEF, 0xBE, 0xAD, 0xDE];
    assert_eq!(read_u16(&bytes, 0), 0x1234);
    assert_eq!(read_u32(&bytes, 2), 0xDEADBEEF);
    let mut out = vec![1];
    push_u32(&mut out, 0x0102_0304);
    assert_eq!(out, vec![1, 4, 3, 2, 1]);
}

#[test]
fn run_value_is_the_quoted_path() {
    let value = run_value("C:\\Program Files\\resticker.exe");
    let units: Vec<u16> = value
        .chunks_exact(2)
        .map(|c| u16::from_le_bytes([c[0], c[1]]))
        .collect();
    assert_eq!(utf16z_to_string(&units), "\"C:\\Program Files\\resticker.exe\"");
    assert_eq!(units.last(), Some(&0));
}

#[test]
fn autostart_outcomes_follow_the_codes() {
    assert_eq!(set_enabled(true, 0, 0), Ok(()));
    assert_eq!(set_enabled(true, 5, 0), Err(Win32Error::Registry(5)));
    assert_eq!(set_enabled(true, 0, 2), Err(Win32Error::Registry(2)));
    assert_eq!(set_enabled(false, 0, 2), Ok(()));
    assert_eq!(set_enabled(false, 0, 5), Err(Win32Error::Registry(5)));
    assert_eq!(is_enabled(0, 0), Ok(true));
    assert_eq!(is_enabled(0, 2), Ok(false));
    assert_eq!(is_enabled(0, 5), Err(Win32Error::Registry(5)));
    assert_eq!(is_enabled(2, 0), Err(Win32Error::Registry(2)));
    assert_eq!(win32_err(87), Win32Error::Registry(87));
}

#[test]
fn the_boot_moment_is_in_the_past_and_stable_between_calls() {
    let now = 1_800_000_000u64;
    let first = booted_at_unix_secs(Some(now), 86_400_999);
    assert!(first <= now as i64);
    assert!(first > 0);
    assert_eq!(first, 1_800_000_000 - 86_400);
    assert_eq!(first, booted_at_unix_secs(Some(now), 86_400_999));
}

#[test]
fn an_unreadable_clock_stands_at_zero() {
    assert_eq!(booted_at_unix_secs(None, 5_000), -5);
    assert_eq!(booted_at_unix_secs(Some(0), u64::MAX), -((u64::MAX / 1000) as i64));
}

#[test]
fn the_shutdown_tag_is_stable_between_calls() {
    let buf = vec![0x00, 0x1f, 0xa0, 0xff, 9, 9];
    assert_eq!(shutdown_tag(0, 0, &buf, 4), Some("001fa0ff".to_string()));
    assert_eq!(shutdown_tag(0, 0, &buf, 4), shutdown_tag(0, 0, &buf, 4));
}

#[test]
fn a_shutdown_tag_needs_something_to_read() {
    let buf = vec![1, 2];
    assert_eq!(shutdown_tag(5, 0, &buf, 2), None);
    assert_eq!(shutdown_tag(0, 2, &buf, 2), None);
    assert_eq!(shutdown_tag(0, 0, &buf, 0), None);
    assert_eq!(shutdown_tag(0, 0, &buf, 40), Some("0102".to_string()));
    assert_eq!(
        current_stamp(Some(100), 1_500, Some("aa".to_string())),
        BootStamp { booted_at: 99, shutdown_tag: Some("aa".to_string()) }
    );
}

#[test]
fn clsid_matches_canonical_fields() {
    let data4: u64 = 0xA5A1_60F8_2A20_AEF7;
    let expected =
        ((0xDC1C5A9Cu128) << 96) | ((0xE88Au128) << 80) | ((0x4DDEu128) << 64) | data4 as u128;
    assert_eq!(CLSID_FILE_OPEN_DIALOG, expected);
}

#[test]
fn error_cancelled_hresult_matches_win32_error_1223() {
    let win32_error_cancelled: u32 = 1223;
    let expected = 0x8000_0000u32 | (7u32 << 16) | (win32_error_cancelled & 0xFFFF);
    assert_eq!(ERROR_CANCELLED_HRESULT as u32, expected);
    assert_eq!(hresult_from_win32(1223), ERROR_CANCELLED_HRESULT);
    assert_eq!(hresult_from_win32(0), 0);
    assert_eq!(hresult_from_win32(0x8007_0005), 0x8007_0005u32 as i32);
}

#[test]
fn image_filter_spec_covers_supported_extensions() {
    for ext in ["png", "jpg", "jpeg", "bmp", "gif", "webp"] {
        assert!(IMAGE_FILTER_SPEC.contains(ext), "{ext}");
    }
}

fn video_extensions() -> Vec<&'static str> {
    vec!["mp4", "webm", "mkv", "mov"]
}

#[test]
fn video_filter_spec_covers_video_extensions() {
    let spec = video_filter_spec(&video_extensions());
    assert_eq!(spec, "*.mp4;*.webm;*.mkv;*.mov");
    for ext in video_extensions() {
        assert!(spec.contains(&format!("*.{ext}")), "{ext}");
    }
    assert_eq!(video_filter_spec(&vec![]), "");
}

#[test]
fn all_media_filter_spec_covers_both_images_and_video() {
    let spec = all_media_filter_spec(&video_extensions());
    for ext in ["png", "jpg", "jpeg", "bmp", "gif", "webp"] {
        assert!(spec.contains(&format!("*.{ext}")), "{ext}");
    }
    for ext in video_extensions() {
        assert!(spec.contains(&format!("*.{ext}")), "{ext}");
    }
}

#[test]
fn filter_strings_are_null_terminated_when_encoded() {
    let encoded = to_wide(IMAGE_FILTER_NAME);
    assert_eq!(*encoded.last().unwrap(), 0);
    assert!(encoded[..encoded.len() - 1].iter().all(|&c| c != 0));
}

#[test]
fn dialog_opens_with_everything_that_can_become_a_sticker() {
    let filters = media_filters(&video_extensions());
    assert_eq!(filters.len(), 3);
    assert_eq!(
        filters[0],
        Filter {
            name: to_wide(ALL_MEDIA_FILTER_NAME),
            spec: to_wide(&all_media_filter_spec(&video_extensions())),
        }
    );
    assert_eq!(filters[1].spec, to_wide(IMAGE_FILTER_SPEC));
    assert_eq!(filters[2].name, to_wide(VIDEO_FILTER_NAME));
    let preset = preset_filters();
    assert_eq!(preset.len(), 1);
    assert_eq!(preset[0].spec, to_wide(PRESET_FILTER_SPEC));
}

#[test]
fn a_choice_is_a_path_and_no_choice_is_no_failure() {
    let path: Vec<u16> = "D:\\кот.png".encode_utf16().collect();
    assert_eq!(
        picked(Ok(()), Ok(path.clone())),
        Ok(Some("D:\\кот.png".to_string()))
    );
    assert_eq!(picked(Err(ERROR_CANCELLED_HRESULT), Ok(path.clone())), Ok(None));
    assert_eq!(picked(Err(-7), Ok(path)), Err(Win32Error::Win32(-7)));
    assert_eq!(picked(Ok(()), Err(-9)), Err(Win32Error::Win32(-9)));
    assert_eq!(
        picked(Ok(()), Ok(vec![0x41, 0xD800])),
        Err(Win32Error::FileDialogPathInvalid)
    );
}
