use playhead::error::{OpenError, SeekError};
use playhead::track::{SeekTarget, TrackData, TrackInfo};

fn data(path: &str, title: &str, artist: &str) -> TrackData {
    TrackData {
        id: 7,
        path: path.to_string(),
        title: title.to_string(),
        artist: artist.to_string(),
        album: "Album".to_string(),
    }
}

fn stereo_two_seconds() -> TrackInfo {
    TrackInfo::from_codec_params(Some(44100), Some(2), Some(88200)).unwrap()
}

#[test]
fn label_is_artist_dash_title() {
    assert_eq!(data("/m/a.mp3", "Song", "Band").display_string(), "Band - Song");
}

#[test]
fn label_without_names_shows_path() {
    assert_eq!(data("/m/a.mp3", "", "").display_string(), " - (/m/a.mp3)");
}

#[test]
fn label_with_artist_only_hides_path() {
    assert_eq!(data("/m/a.mp3", "", "Band").display_string(), "Band - ");
}

#[test]
fn descriptor_from_complete_params() {
    let t = stereo_two_seconds();
    assert_eq!(t.sample_rate, 44100);
    assert_eq!(t.channels, 2);
    assert_eq!(t.frames, 88200);
    assert_eq!(t.duration_samples(), 176400);
    assert_eq!(t.queue_capacity(), 176400);
}

#[test]
fn descriptor_errors_in_order() {
    assert_eq!(TrackInfo::from_codec_params(None, None, None), Err(OpenError::NoSampleRate));
    assert_eq!(TrackInfo::from_codec_params(Some(0), Some(2), Some(1)), Err(OpenError::NoSampleRate));
    assert_eq!(TrackInfo::from_codec_params(Some(44100), None, None), Err(OpenError::NoChannels));
    assert_eq!(TrackInfo::from_codec_params(Some(44100), Some(0), Some(1)), Err(OpenError::NoChannels));
    assert_eq!(TrackInfo::from_codec_params(Some(44100), Some(2), None), Err(OpenError::NoDuration));
    assert_eq!(
        TrackInfo::from_codec_params(Some(44100), Some(2), Some(u64::MAX / 2 + 1)),
        Err(OpenError::TooLong)
    );
    assert_eq!(TrackInfo::from_codec_params(Some(1), Some(1), Some(u64::MAX)), Err(OpenError::TooLong));
}

#[test]
fn seek_one_second_targets_middle_of_stereo_track() {
    let t = stereo_two_seconds();
    assert_eq!(t.seek_target(1_000_000_000), Ok(SeekTarget { frame: 44100, clock: 88200 }));
}

#[test]
fn seek_rounds_to_nearest_frame() {
    let t = TrackInfo::from_codec_params(Some(1000), Some(2), Some(5000)).unwrap();
    // 1.0004 s -> 1000.4 frames -> 1000; 1.0005 s -> 1000.5 frames -> 1001
    assert_eq!(t.seek_target(1_000_400_000), Ok(SeekTarget { frame: 1000, clock: 2000 }));
    assert_eq!(t.seek_target(1_000_500_000), Ok(SeekTarget { frame: 1001, clock: 2002 }));
    assert_eq!(t.seek_target(0), Ok(SeekTarget { frame: 0, clock: 0 }));
}

#[test]
fn seek_at_or_past_end_is_refused() {
    let t = stereo_two_seconds();
    assert_eq!(t.seek_target(2_000_000_000), Err(SeekError::OutOfRange));
    assert_eq!(t.seek_target(5_000_000_000), Err(SeekError::OutOfRange));
    assert!(t.seek_target(1_999_999_999).is_ok());
}

#[test]
fn step_target_moves_one_second_within_track() {
    let t = stereo_two_seconds();
    assert_eq!(t.step_target(88200, true), 2_000_000_000);
    assert_eq!(t.step_target(88200, false), 0);
    assert_eq!(t.step_target(0, true), 1_000_000_000);
    assert_eq!(t.step_target(0, false), 0);
    assert_eq!(t.step_target(176400, false), 1_000_000_000);
    assert_eq!(t.step_target(u64::MAX, true), 2_000_000_000);
}

use playhead::device::{choose_config, ConfigRange};

fn range(float_samples: bool, min_rate: u32, max_rate: u32, channels: u16) -> ConfigRange {
    ConfigRange { float_samples, min_rate, max_rate, channels }
}

#[test]
fn first_matching_float_config_is_chosen() {
    let ranges = vec![
        range(false, 8000, 96000, 2),
        range(true, 8000, 22050, 2),
        range(true, 8000, 96000, 1),
        range(true, 44100, 48000, 2),
        range(true, 8000, 192000, 2),
    ];
    assert_eq!(choose_config(&ranges, 44100, 2), Some(3));
    assert_eq!(choose_config(&ranges, 192000, 2), Some(4));
    assert_eq!(choose_config(&ranges, 44100, 6), None);
    assert_eq!(choose_config(&vec![], 44100, 2), None);
}
