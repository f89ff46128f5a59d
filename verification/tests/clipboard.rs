use rst_win32::clipboard::{
    after_attempt, dib_to_bmp, first_source, is_supported_image, keep_images, look_at_bytes,
    look_at_files, ClipboardImage, DibFault, Look, OpenStep, Source, BI_BITFIELDS,
};
use rst_win32::Win32Error;

fn le_u32(bytes: &[u8], offset: usize) -> u32 {
    u32::from_le_bytes(bytes[offset..offset + 4].try_into().expect("four bytes"))
}

fn test_dib_24bpp() -> Vec<u8> {
    let mut dib = vec![0u8; 40 + 16];
    dib[0..4].copy_from_slice(&40u32.to_le_bytes());
    dib[4..8].copy_from_slice(&2i32.to_le_bytes());
    dib[8..12].copy_from_slice(&2i32.to_le_bytes());
    dib[12..14].copy_from_slice(&1u16.to_le_bytes());
    dib[14..16].copy_from_slice(&24u16.to_le_bytes());
    for (i, b) in dib[40..].iter_mut().enumerate() {
        *b = i as u8;
    }
    dib
}

fn test_dib_v5() -> Vec<u8> {
    let mut dib = vec![0u8; 124 + 16];
    dib[0..4].copy_from_slice(&124u32.to_le_bytes());
    dib[4..8].copy_from_slice(&2i32.to_le_bytes());
    dib[8..12].copy_from_slice(&(-2i32).to_le_bytes());
    dib[12..14].copy_from_slice(&1u16.to_le_bytes());
    dib[14..16].copy_from_slice(&32u16.to_le_bytes());
    dib[124..].fill(0xAB);
    dib
}

#[test]
fn bmp_header_for_24bpp_dib() {
    let dib = test_dib_24bpp();
    let bmp = dib_to_bmp(&dib).expect("a valid bitmap");
    assert_eq!(&bmp[0..2], b"BM");
    assert_eq!(le_u32(&bmp, 2), (14 + dib.len()) as u32);
    assert_eq!(le_u32(&bmp, 10), 54);
    assert_eq!(&bmp[14..], &dib[..]);
}

#[test]
fn bmp_offsets_for_masks_palette_v5() {
    let mut dib = vec![0u8; 40 + 12 + 16];
    dib[0..4].copy_from_slice(&40u32.to_le_bytes());
    dib[14..16].copy_from_slice(&32u16.to_le_bytes());
    dib[16..20].copy_from_slice(&BI_BITFIELDS.to_le_bytes());
    let bmp = dib_to_bmp(&dib).expect("a valid bitmap");
    assert_eq!(le_u32(&bmp, 10), 14 + 40 + 12);

    let mut dib = vec![0u8; 40 + 1024 + 4];
    dib[0..4].copy_from_slice(&40u32.to_le_bytes());
    dib[14..16].copy_from_slice(&8u16.to_le_bytes());
    let bmp = dib_to_bmp(&dib).expect("a valid bitmap");
    assert_eq!(le_u32(&bmp, 10), (14 + 40 + 1024) as u32);

    let mut dib = vec![0u8; 40 + 64 + 4];
    dib[0..4].copy_from_slice(&40u32.to_le_bytes());
    dib[14..16].copy_from_slice(&8u16.to_le_bytes());
    dib[32..36].copy_from_slice(&16u32.to_le_bytes());
    let bmp = dib_to_bmp(&dib).expect("a valid bitmap");
    assert_eq!(le_u32(&bmp, 10), (14 + 40 + 64) as u32);

    let bmp = dib_to_bmp(&test_dib_v5()).expect("a valid bitmap");
    assert_eq!(le_u32(&bmp, 10), (14 + 124) as u32);
}

#[test]
fn dib_to_bmp_rejects_garbage() {
    assert!(dib_to_bmp(&[1, 2]).is_err());
    assert!(dib_to_bmp(&12u32.to_le_bytes()).is_err());
    assert!(dib_to_bmp(&40u32.to_le_bytes()).is_err());
    let mut dib = vec![0u8; 40];
    dib[0..4].copy_from_slice(&40u32.to_le_bytes());
    dib[14..16].copy_from_slice(&8u16.to_le_bytes());
    assert!(dib_to_bmp(&dib).is_err());
}

#[test]
fn each_fault_of_a_bitmap_has_its_name() {
    let fault = |dib: &[u8]| match dib_to_bmp(dib) {
        Err(Win32Error::ClipboardDataCorrupt(fault)) => fault,
        other => panic!("{other:?}"),
    };
    assert_eq!(fault(&[1, 2]), DibFault::Truncated);
    assert_eq!(fault(&12u32.to_le_bytes()), DibFault::UnknownHeader);
    assert_eq!(fault(&40u32.to_le_bytes()), DibFault::ShorterThanHeader);
    let mut dib = vec![0u8; 40];
    dib[0..4].copy_from_slice(&40u32.to_le_bytes());
    dib[14..16].copy_from_slice(&8u16.to_le_bytes());
    assert_eq!(fault(&dib), DibFault::TruncatedPalette);
}

#[test]
fn supported_image_extensions() {
    for ok in ["a.png", "b.JPG", "c.jpeg", "d.WebP", "e.bmp", "f.gif"] {
        assert!(is_supported_image(ok), "{ok}");
    }
    for bad in ["a.txt", "b.exe", "c", ".png", "d.png.txt"] {
        assert!(!is_supported_image(bad), "{bad}");
    }
}

/// What is on the clipboard.
#[derive(Default)]
struct Clipboard {
    png: Option<Vec<u8>>,
    dib_v5: Option<Vec<u8>>,
    dib: Option<Vec<u8>>,
    files: Option<Vec<String>>,
}

fn read_image(clipboard: Clipboard) -> Result<Option<ClipboardImage>, Win32Error> {
    let mut clipboard = clipboard;
    let mut source = first_source(true);
    loop {
        let bytes = match source {
            Source::Png => clipboard.png.take(),
            Source::DibV5 => clipboard.dib_v5.take(),
            Source::Dib => clipboard.dib.take(),
            Source::Files => return Ok(look_at_files(clipboard.files)),
        };
        match look_at_bytes(source, bytes)? {
            Look::Found(image) => return Ok(Some(image)),
            Look::Next(next) => source = next,
        }
    }
}

#[test]
fn empty_clipboard_yields_none() {
    assert_eq!(read_image(Clipboard::default()), Ok(None));
}

#[test]
fn png_roundtrip() {
    let png = b"\x89PNG\r\n\x1a\nfake-png-bytes".to_vec();
    let result = read_image(Clipboard { png: Some(png.clone()), ..Default::default() });
    assert_eq!(result, Ok(Some(ClipboardImage::Png(png))));
}

#[test]
fn dibv5_roundtrip_becomes_bmp() {
    let dib = test_dib_v5();
    let result = read_image(Clipboard { dib_v5: Some(dib.clone()), ..Default::default() });
    let bmp = match result {
        Ok(Some(ClipboardImage::Bmp(bmp))) => bmp,
        other => panic!("{other:?}"),
    };
    assert_eq!(&bmp[0..2], b"BM");
    assert_eq!(le_u32(&bmp, 10), (14 + 124) as u32);
    assert_eq!(&bmp[14..], &dib[..]);
}

#[test]
fn png_wins_over_dib() {
    let png = b"\x89PNG\r\n\x1a\npriority".to_vec();
    let result = read_image(Clipboard {
        png: Some(png.clone()),
        dib: Some(test_dib_24bpp()),
        ..Default::default()
    });
    assert_eq!(result, Ok(Some(ClipboardImage::Png(png))));
}

fn paths(list: &[&str]) -> Vec<String> {
    list.iter().map(|p| p.to_string()).collect()
}

#[test]
fn hdrop_filters_to_images() {
    let files = paths(&["C:\\img\\cat.png", "C:\\docs\\note.txt", "D:\\dog.JPG"]);
    let result = read_image(Clipboard { files: Some(files), ..Default::default() });
    assert_eq!(
        result,
        Ok(Some(ClipboardImage::Files(paths(&["C:\\img\\cat.png", "D:\\dog.JPG"]))))
    );
}

#[test]
fn hdrop_without_images_yields_none() {
    let files = paths(&["C:\\docs\\note.txt"]);
    assert_eq!(read_image(Clipboard { files: Some(files), ..Default::default() }), Ok(None));
}

#[test]
fn a_bitmap_that_is_no_good_ends_the_look() {
    let result = read_image(Clipboard {
        dib_v5: Some(vec![1, 2]),
        dib: Some(test_dib_24bpp()),
        ..Default::default()
    });
    assert_eq!(result, Err(Win32Error::ClipboardDataCorrupt(DibFault::Truncated)));
}

#[test]
fn without_the_png_format_the_look_starts_with_bitmaps() {
    assert_eq!(first_source(false), Source::DibV5);
    assert_eq!(look_at_bytes(Source::DibV5, None), Ok(Look::Next(Source::Dib)));
    assert_eq!(look_at_bytes(Source::Dib, None), Ok(Look::Next(Source::Files)));
    assert_eq!(keep_images(paths(&["x", "y.GIF"])), paths(&["y.GIF"]));
}

#[test]
fn clipboard_is_tried_for_half_a_second() {
    assert_eq!(after_attempt(0, true), OpenStep::Done);
    assert_eq!(after_attempt(24, true), OpenStep::Done);
    for attempt in 0..24 {
        assert_eq!(after_attempt(attempt, false), OpenStep::Wait(20));
    }
    assert_eq!(after_attempt(24, false), OpenStep::Busy);
    assert_eq!(after_attempt(u32::MAX, false), OpenStep::Busy);
}

#[test]
fn picture_paths_are_told_by_their_last_component() {
    assert!(is_supported_image(r"\\cat.png"));
    assert!(!is_supported_image(r"\\server\share.png"));
    assert!(!is_supported_image(r"\\?\UNC\server\share.png"));
    assert!(is_supported_image(r"\\?\UNC\server\share\cat.PNG"));
}
