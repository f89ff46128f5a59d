use rst_win32::sound::{pin_sound, scale_wav_volume};

fn build_wav(samples: &[i16]) -> Vec<u8> {
    let data_bytes: Vec<u8> = samples.iter().flat_map(|s| s.to_le_bytes()).collect();
    let mut wav = Vec::new();
    wav.extend_from_slice(b"RIFF");
    wav.extend_from_slice(&(36 + data_bytes.len() as u32).to_le_bytes());
    wav.extend_from_slice(b"WAVE");
    wav.extend_from_slice(b"fmt ");
    wav.extend_from_slice(&16u32.to_le_bytes());
    wav.extend_from_slice(&1u16.to_le_bytes());
    wav.extend_from_slice(&1u16.to_le_bytes());
    wav.extend_from_slice(&44100u32.to_le_bytes());
    wav.extend_from_slice(&88200u32.to_le_bytes());
    wav.extend_from_slice(&2u16.to_le_bytes());
    wav.extend_from_slice(&16u16.to_le_bytes());
    wav.extend_from_slice(b"data");
    wav.extend_from_slice(&(data_bytes.len() as u32).to_le_bytes());
    wav.extend_from_slice(&data_bytes);
    wav
}

fn samples_of(wav: &[u8]) -> Vec<i16> {
    wav[44..]
        .chunks_exact(2)
        .map(|c| i16::from_le_bytes([c[0], c[1]]))
        .collect()
}

#[test]
fn volume_100_leaves_samples_unchanged() {
    let wav = build_wav(&[100, -200, 32000, -32000]);
    let scaled = scale_wav_volume(&wav, 100).expect("a valid file");
    assert_eq!(samples_of(&scaled), vec![100, -200, 32000, -32000]);
}

#[test]
fn volume_50_halves_samples() {
    let wav = build_wav(&[1000, -1000, 200]);
    let scaled = scale_wav_volume(&wav, 50).expect("a valid file");
    assert_eq!(samples_of(&scaled), vec![500, -500, 100]);
}

#[test]
fn volume_0_zeroes_samples() {
    let wav = build_wav(&[1000, -1000]);
    let scaled = scale_wav_volume(&wav, 0).expect("a valid file");
    assert_eq!(samples_of(&scaled), vec![0, 0]);
}

#[test]
fn volume_over_100_is_not_called_with_clamp_responsibility_on_caller() {
    let wav = build_wav(&[30000]);
    let scaled = scale_wav_volume(&wav, 150).expect("a valid file");
    assert_eq!(samples_of(&scaled), vec![i16::MAX]);
}

#[test]
fn header_and_riff_size_unchanged_by_scaling() {
    let wav = build_wav(&[1, 2, 3]);
    let scaled = scale_wav_volume(&wav, 50).expect("a valid file");
    assert_eq!(wav.len(), scaled.len());
    assert_eq!(&wav[0..44], &scaled[0..44]);
}

#[test]
fn only_plain_samples_are_scaled() {
    let mut wav = build_wav(&[1000]);
    wav[20] = 3;
    assert_eq!(scale_wav_volume(&wav, 50), None);
    assert_eq!(pin_sound(&wav, 50), None);
    wav[20] = 1;
    wav[21] = 1;
    assert_eq!(scale_wav_volume(&wav, 50), None);
    wav[21] = 0;
    assert!(scale_wav_volume(&wav, 50).is_some());
    wav[34] = 8;
    assert_eq!(scale_wav_volume(&wav, 50), None);
}

#[test]
fn not_riff_returns_none() {
    assert_eq!(scale_wav_volume(b"not a wav file at all", 50), None);
}

#[test]
fn truncated_riff_returns_none() {
    assert_eq!(scale_wav_volume(b"RIFF\x00\x00\x00\x00WAVE", 50), None);
}

/// Every sample at every volume is what single precision gives.
#[test]
fn samples_scale_as_in_single_precision() {
    for half in [0i32, 1] {
        let samples: Vec<i16> = (-16384..16384).map(|n| (2 * n + half) as i16).collect();
        let wav = build_wav(&samples);
        for percent in (half as u32..256).step_by(2) {
            let scaled = samples_of(&scale_wav_volume(&wav, percent as u8).expect("a valid file"));
            let scale = percent as u8 as f32 / 100.0;
            for (i, value) in samples.iter().enumerate().step_by(7) {
                let expected = (*value as f32 * scale)
                    .round()
                    .clamp(i16::MIN as f32, i16::MAX as f32) as i16;
                assert_eq!(scaled[i], expected, "{value} at {percent}");
            }
        }
    }
}

#[test]
fn samples_at_small_volumes_scale_as_in_single_precision() {
    let samples: Vec<i16> = (-32768..32768).map(|n| n as i16).collect();
    let wav = build_wav(&samples);
    for percent in [1u8, 2, 3, 7, 33, 57, 99] {
        let scaled = samples_of(&scale_wav_volume(&wav, percent).expect("a valid file"));
        let scale = percent as f32 / 100.0;
        for (i, value) in samples.iter().enumerate() {
            assert_eq!(scaled[i], (*value as f32 * scale).round() as i16);
        }
    }
}

#[test]
fn other_parts_are_skipped_and_the_last_one_counts() {
    let mut wav = build_wav(&[1000]);
    // A part of odd length, with the byte that fills it up.
    let mut junk = b"LIST".to_vec();
    junk.extend_from_slice(&3u32.to_le_bytes());
    junk.extend_from_slice(&[1, 2, 3, 0]);
    let mut with_junk = wav[..12].to_vec();
    with_junk.extend_from_slice(&junk);
    with_junk.extend_from_slice(&wav[12..]);
    let scaled = scale_wav_volume(&with_junk, 50).expect("a valid file");
    assert_eq!(&scaled[scaled.len() - 2..], &500i16.to_le_bytes());

    // A second part of samples takes the place of the first.
    wav.extend_from_slice(b"data");
    wav.extend_from_slice(&3u32.to_le_bytes());
    wav.extend_from_slice(&200i16.to_le_bytes());
    wav.push(77);
    let scaled = scale_wav_volume(&wav, 50).expect("a valid file");
    assert_eq!(&scaled[44..46], &1000i16.to_le_bytes());
    assert_eq!(&scaled[54..56], &100i16.to_le_bytes());
    assert_eq!(scaled[56], 77);
}

#[test]
fn only_samples_of_sixteen_bits_are_scaled() {
    let mut wav = build_wav(&[1000]);
    wav[34] = 8;
    assert_eq!(scale_wav_volume(&wav, 50), None);
    let wav = build_wav(&[1000]);
    assert_eq!(scale_wav_volume(&wav[..36], 50), None);
}

#[test]
fn a_part_that_does_not_fit_ends_the_file() {
    let mut wav = build_wav(&[1000]);
    wav.extend_from_slice(b"data");
    wav.extend_from_slice(&100u32.to_le_bytes());
    let scaled = scale_wav_volume(&wav, 50).expect("a valid file");
    assert_eq!(&scaled[44..46], &500i16.to_le_bytes());
}

#[test]
fn the_pin_sound_is_silent_at_no_volume_and_never_too_loud() {
    let wav = build_wav(&[1000]);
    assert_eq!(pin_sound(&wav, 0), None);
    assert_eq!(samples_of(&pin_sound(&wav, 25).expect("a valid file")), vec![250]);
    assert_eq!(samples_of(&pin_sound(&wav, 200).expect("a valid file")), vec![1000]);
    assert_eq!(pin_sound(b"nothing", 50), None);
}
