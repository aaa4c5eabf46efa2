use playhead::pcm::{PcmBlock, SampleFormat};
use playhead::queue::sample_queue;
use playhead::worker::{
    decode_error_is_transient, envelope_read_step, playback_read_step, DecodeWorker, ReadStep,
    StreamError, WorkerStep,
};

fn stereo(left: Vec<i64>, right: Vec<i64>) -> PcmBlock {
    PcmBlock::new(SampleFormat::S32, vec![left, right]).unwrap()
}

#[test]
fn worker_queues_packet_in_order_and_waits_when_full() {
    let (p, mut c) = sample_queue(4);
    let mut w = DecodeWorker::new(1, 100, p);
    assert_eq!(w.step(true), WorkerStep::NeedPacket);
    w.take_block(&stereo(vec![1, 2, 3], vec![-1, -2, -3]));
    assert_eq!(w.step(true), WorkerStep::Wait);
    assert!(w.has_backlog());
    assert_eq!(c.pop(), Some(1));
    assert_eq!(c.pop(), Some(-1));
    assert_eq!(w.step(true), WorkerStep::NeedPacket);
    let drained: Vec<i32> = std::iter::from_fn(|| c.pop()).collect();
    assert_eq!(drained, vec![2, -2, 3, -3]);
}

#[test]
fn paused_worker_keeps_its_backlog() {
    let (p, mut c) = sample_queue(2);
    let mut w = DecodeWorker::new(1, 100, p);
    w.take_block(&stereo(vec![1, 2], vec![10, 20]));
    assert_eq!(w.step(true), WorkerStep::Wait);
    assert_eq!(w.step(false), WorkerStep::Paused);
    assert_eq!(c.pop(), Some(1));
    assert_eq!(c.pop(), Some(10));
    assert_eq!(c.pop(), None);
    assert_eq!(w.step(true), WorkerStep::NeedPacket);
    assert_eq!(c.pop(), Some(2));
    assert_eq!(c.pop(), Some(20));
}

#[test]
fn worker_stops_at_track_end() {
    let (p, mut c) = sample_queue(16);
    let mut w = DecodeWorker::new(1, 5, p);
    w.take_block(&stereo(vec![1, 2], vec![3, 4]));
    assert_eq!(w.step(true), WorkerStep::NeedPacket);
    w.take_block(&stereo(vec![5, 6], vec![7, 8]));
    assert_eq!(w.step(true), WorkerStep::NeedPacket);
    let drained: Vec<i32> = std::iter::from_fn(|| c.pop()).collect();
    assert_eq!(drained, vec![1, 3, 2, 4, 5]);
}

#[test]
fn worker_selects_its_track() {
    let (p, _c) = sample_queue(1);
    let w = DecodeWorker::new(3, 10, p);
    assert!(w.accepts(3));
    assert!(!w.accepts(4));
}

#[test]
fn read_failures_decide_the_loops() {
    assert_eq!(envelope_read_step(StreamError::ResetRequired), ReadStep::Retry);
    assert_eq!(envelope_read_step(StreamError::EndOfStream), ReadStep::Finish);
    assert_eq!(envelope_read_step(StreamError::Io), ReadStep::Fail);
    assert_eq!(playback_read_step(StreamError::EndOfStream), ReadStep::Finish);
    assert_eq!(playback_read_step(StreamError::ResetRequired), ReadStep::Fail);
    assert_eq!(playback_read_step(StreamError::Decode), ReadStep::Fail);
}

#[test]
fn bad_packets_are_skipped_other_decoder_errors_are_fatal() {
    assert!(decode_error_is_transient(StreamError::Decode));
    assert!(decode_error_is_transient(StreamError::Io));
    assert!(!decode_error_is_transient(StreamError::Unsupported));
    assert!(!decode_error_is_transient(StreamError::Limit));
}

#[test]
fn restarted_worker_delivers_the_same_stream() {
    let packets = vec![stereo(vec![1, 2], vec![3, 4]), stereo(vec![5], vec![6])];
    let run = || {
        let (p, mut c) = sample_queue(64);
        let mut w = DecodeWorker::new(1, 6, p);
        for b in &packets {
            assert_eq!(w.step(true), WorkerStep::NeedPacket);
            w.take_block(b);
        }
        assert_eq!(w.step(true), WorkerStep::NeedPacket);
        std::iter::from_fn(move || c.pop()).collect::<Vec<i32>>()
    };
    assert_eq!(run(), vec![1, 3, 2, 4, 5, 6]);
    assert_eq!(run(), run());
}
