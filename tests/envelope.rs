use playhead::envelope::{EnvelopeBuilder, Peak, DEFAULT_BLOCK_SIZE};
use playhead::pcm::{PcmBlock, SampleFormat};

fn peak(min_left: i32, max_left: i32, min_right: i32, max_right: i32) -> Peak {
    Peak { min_left, max_left, min_right, max_right }
}

#[test]
fn stereo_blocks_split_channels() {
    let mut b = EnvelopeBuilder::new(2, 4);
    b.push_samples(&vec![1, -1, 5, -7, 3, 9, -2, 4, 8, 0]);
    let peaks = b.finish();
    assert_eq!(peaks, vec![peak(1, 5, -7, -1), peak(-2, 3, 4, 9), peak(8, 8, 0, 0)]);
}

#[test]
fn blocks_cross_push_boundaries() {
    let mut a = EnvelopeBuilder::new(2, 4);
    a.push_samples(&vec![1, -1, 5]);
    a.push_samples(&vec![-7, 3, 9]);
    a.push_samples(&vec![-2, 4, 8, 0]);
    let mut b = EnvelopeBuilder::new(2, 4);
    b.push_samples(&vec![1, -1, 5, -7, 3, 9, -2, 4, 8, 0]);
    assert_eq!(a.finish(), b.finish());
}

#[test]
fn mono_duplicates_into_right() {
    let mut b = EnvelopeBuilder::new(1, 3);
    b.push_samples(&vec![4, -4, 2, 7]);
    assert_eq!(b.finish(), vec![peak(-4, 4, -4, 4), peak(7, 7, 7, 7)]);
}

#[test]
fn empty_stream_has_no_peaks() {
    let b = EnvelopeBuilder::new(2, DEFAULT_BLOCK_SIZE);
    assert!(b.finish().is_empty());
}

#[test]
fn peak_count_is_ceiling_of_duration_over_block() {
    // 2 channels, 100 frames: 200 interleaved samples in blocks of 32 -> 7 peaks
    let mut b = EnvelopeBuilder::new(2, DEFAULT_BLOCK_SIZE);
    let samples: Vec<i32> = (0..200).collect();
    b.push_samples(&samples);
    let peaks = b.finish();
    assert_eq!(peaks.len(), 7);
    assert_eq!(peaks[6], peak(192, 198, 193, 199));
    let mut exact = EnvelopeBuilder::new(2, DEFAULT_BLOCK_SIZE);
    exact.push_samples(&(0..64).collect());
    assert_eq!(exact.finish().len(), 2);
}

#[test]
fn extraction_is_repeatable() {
    let run = || {
        let mut b = EnvelopeBuilder::new(2, 8);
        let block = PcmBlock::new(SampleFormat::S16, vec![vec![1, -300, 20000], vec![-5, 7, -32768]]).unwrap();
        assert!(b.push_block(&block));
        assert!(b.push_block(&block));
        b.finish()
    };
    assert_eq!(run(), run());
}

#[test]
fn block_with_other_channel_count_is_skipped() {
    let mut b = EnvelopeBuilder::new(2, 2);
    let mono = PcmBlock::new(SampleFormat::S32, vec![vec![1, 2]]).unwrap();
    assert!(!b.push_block(&mono));
    let stereo = PcmBlock::new(SampleFormat::S32, vec![vec![1], vec![2]]).unwrap();
    assert!(b.push_block(&stereo));
    assert_eq!(b.finish(), vec![peak(1, 1, 2, 2)]);
}

#[test]
fn block_rounds_up_to_whole_frames() {
    let mut b = EnvelopeBuilder::new(2, 1);
    b.push_samples(&vec![3, 4, 5, 6]);
    assert_eq!(b.finish(), vec![peak(3, 3, 4, 4), peak(5, 5, 6, 6)]);
}

#[test]
fn every_peak_is_a_real_range_with_three_channels() {
    // 3 channels, 11 frames: blocks of 32 become blocks of 33 samples
    let mut b = EnvelopeBuilder::new(3, DEFAULT_BLOCK_SIZE);
    let planes: Vec<Vec<i64>> = (0..3).map(|c| (0..11).map(|f| f * 10 + c).collect()).collect();
    assert!(b.push_block(&PcmBlock::new(SampleFormat::S32, planes).unwrap()));
    let peaks = b.finish();
    assert_eq!(peaks, vec![peak(0, 100, 1, 101)]);
    for p in &peaks {
        assert!(p.min_left <= p.max_left && p.min_right <= p.max_right);
    }
}
