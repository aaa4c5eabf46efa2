use playhead::error::{SeekError, TransportError};
use playhead::track::{SeekTarget, TrackInfo};
use playhead::transport::{PlayPlan, Teardown, Transport, TransportState};

fn loaded() -> Transport {
    Transport::new(TrackInfo::from_codec_params(Some(44100), Some(2), Some(88200)).unwrap())
}

const START: PlayPlan = PlayPlan { join_worker: false, open_stream: true, start_worker: true };
const NOTHING: PlayPlan = PlayPlan { join_worker: false, open_stream: false, start_worker: false };

#[test]
fn load_starts_idle_at_zero() {
    let t = loaded();
    assert_eq!(t.state, TransportState::Idle);
    assert_eq!(t.origin, 0);
    assert!(!t.stream_open);
}

#[test]
fn first_play_opens_stream_and_starts_worker() {
    let mut t = loaded();
    assert_eq!(t.play(), START);
    assert_eq!(t.state, TransportState::Playing);
    assert_eq!(t.play(), NOTHING);
}

#[test]
fn pause_without_stream_is_refused() {
    let mut t = loaded();
    assert_eq!(t.pause(), Err(TransportError::NoStream));
    assert_eq!(t.state, TransportState::Idle);
}

#[test]
fn pause_then_play_resumes_same_session() {
    let mut t = loaded();
    t.play();
    let before = t;
    assert_eq!(t.pause(), Ok(()));
    assert_eq!(t.state, TransportState::Paused);
    assert_eq!(t.play(), PlayPlan { join_worker: true, open_stream: false, start_worker: true });
    assert_eq!(t, before);
}

#[test]
fn seek_one_second_sets_clock_and_restarts() {
    let mut t = loaded();
    t.play();
    let plan = t.seek(1_000_000_000).unwrap();
    assert_eq!(plan.target, SeekTarget { frame: 44100, clock: 88200 });
    assert_eq!(plan.teardown, Teardown { pause_stream: true, join_worker: true });
    assert_eq!(plan.play, START);
    assert_eq!(t.origin, 88200);
    assert_eq!(t.state, TransportState::Playing);
}

#[test]
fn seek_from_idle_starts_playing() {
    let mut t = loaded();
    let plan = t.seek(500_000_000).unwrap();
    assert_eq!(plan.teardown, Teardown { pause_stream: false, join_worker: false });
    assert_eq!(plan.target.clock, 44100);
    assert_eq!(t.state, TransportState::Playing);
}

#[test]
fn seek_past_end_changes_nothing() {
    let mut t = loaded();
    t.play();
    let before = t;
    assert_eq!(t.seek(2_000_000_000).err(), Some(SeekError::OutOfRange));
    assert_eq!(t, before);
}

#[test]
fn end_of_stream_moves_to_done_and_pause_keeps_it() {
    let mut t = loaded();
    t.play();
    t.end_of_stream();
    assert_eq!(t.state, TransportState::Done);
    assert_eq!(t.play(), NOTHING);
    assert_eq!(t.pause(), Ok(()));
    assert_eq!(t.play(), NOTHING);
    assert_eq!(t.state, TransportState::Done);
}

#[test]
fn reset_returns_to_loaded_state() {
    let mut t = loaded();
    t.play();
    t.seek(1_500_000_000).unwrap();
    assert_eq!(t.reset(), Teardown { pause_stream: true, join_worker: true });
    assert_eq!(t, loaded());
    assert_eq!(t.play(), START);
}

#[test]
fn failed_stream_leaves_transport_idle() {
    let mut t = loaded();
    t.play();
    t.stream_failed();
    assert_eq!(t, loaded());
}

#[test]
fn worker_failure_is_kept_until_seek() {
    let mut t = loaded();
    t.play();
    t.worker_failed();
    assert_eq!(t.state, TransportState::Failed);
    assert_eq!(t.play(), NOTHING);
    assert_eq!(t.pause(), Ok(()));
    assert_eq!(t.play(), NOTHING);
    assert_eq!(t.state, TransportState::Failed);
    t.seek(0).unwrap();
    assert_eq!(t.state, TransportState::Playing);
    assert!(!t.failed);
}

#[test]
fn second_reset_changes_nothing() {
    let mut t = loaded();
    t.play();
    t.reset();
    let once = t;
    assert_eq!(t.reset(), Teardown { pause_stream: false, join_worker: false });
    assert_eq!(t, once);
}
