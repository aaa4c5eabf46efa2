use playhead::clock::PlaybackClock;
use playhead::queue::sample_queue;
use playhead::sink::OutputSink;

#[test]
fn sink_drains_queue_then_plays_silence() {
    let (mut p, c) = sample_queue(8);
    for v in [5, 6, 7] {
        assert!(p.push(v));
    }
    let clock = PlaybackClock::new();
    let mut sink = OutputSink::new(c, clock.writer(0));
    let mut out = vec![9; 5];
    assert_eq!(sink.fill(&mut out), 3);
    assert_eq!(out, vec![5, 6, 7, 0, 0]);
    assert_eq!(clock.get(), 3);
    let mut out = vec![9; 4];
    assert_eq!(sink.fill(&mut out), 0);
    assert_eq!(out, vec![0, 0, 0, 0]);
    assert_eq!(clock.get(), 3);
}

#[test]
fn clock_advances_only_by_played_samples() {
    let (mut p, c) = sample_queue(4);
    let clock = PlaybackClock::new();
    let mut sink = OutputSink::new(c, clock.writer(88200));
    assert_eq!(clock.get(), 88200);
    let mut out = vec![0; 3];
    for v in 0..4 {
        assert!(p.push(v));
    }
    assert_eq!(sink.fill(&mut out), 3);
    assert_eq!(clock.get(), 88203);
    assert_eq!(sink.fill(&mut out), 1);
    assert_eq!(out, vec![3, 0, 0]);
    assert_eq!(clock.get(), 88204);
}

use playhead::pcm::{PcmBlock, SampleFormat};
use playhead::track::TrackInfo;
use playhead::worker::{DecodeWorker, WorkerStep};

#[test]
fn clock_never_passes_track_end() {
    // 10 Hz stereo, 20 frames: 40 interleaved samples in all
    let info = TrackInfo::from_codec_params(Some(10), Some(2), Some(20)).unwrap();
    let (p, c) = sample_queue(info.queue_capacity());
    let clock = PlaybackClock::new();
    let mut worker = DecodeWorker::new(1, info.duration_samples(), p);
    let mut sink = OutputSink::new(c, clock.writer(0));
    let block = PcmBlock::new(SampleFormat::S16, vec![vec![1; 15], vec![2; 15]]).unwrap();
    let mut out = vec![0; 7];
    let mut last = 0;
    for _ in 0..4 {
        assert_eq!(worker.step(true), WorkerStep::NeedPacket);
        worker.take_block(&block);
        while worker.step(true) == WorkerStep::Wait {
            sink.fill(&mut out);
        }
        sink.fill(&mut out);
        assert!(clock.get() >= last);
        assert!(clock.get() <= 40);
        last = clock.get();
    }
    while sink.fill(&mut out) > 0 {}
    assert_eq!(clock.get(), 40);
}
