use vstd::prelude::*;
use vstd::string::*;
use crate::error::{OpenError, SeekError};
use crate::lemma_mul_u128;

verus! {

/// Catalogue entry for a track: where it lives and how it is labelled.
#[derive(Debug, Clone)]
pub struct TrackData {
    pub id: i32,
    pub path: String,
    pub title: String,
    pub artist: String,
    pub album: String,
}

/// The label of a track: `artist - title`, followed by `(path)` when the
/// track carries neither a title nor an artist.
pub open spec fn track_label(path: Seq<char>, title: Seq<char>, artist: Seq<char>) -> Seq<char> {
    let base = artist + " - "@ + title;
    if title.len() == 0 && artist.len() == 0 {
        base + "("@ + path + ")"@
    } else {
        base
    }
}

impl TrackData {
    /// The text shown for this track in a listing.
    pub fn display_string(&self) -> (r: String)
        ensures
            r@ == track_label(self.path@, self.title@, self.artist@),
    {
        let mut r = String::new();
        r.append(self.artist.as_str());
        r.append(" - ");
        r.append(self.title.as_str());
        if self.title.as_str().is_empty() && self.artist.as_str().is_empty() {
            r.append("(");
            r.append(self.path.as_str());
            r.append(")");
        }
        proof {
            reveal_strlit(" - ");
            reveal_strlit("(");
            reveal_strlit(")");
        }
        r
    }
}

} // verus!

verus! {

/// Nanoseconds in one second.
pub const NANOS_PER_SEC: u64 = 1_000_000_000;

/// How many seconds of audio the sample queue holds.
pub const QUEUE_SECONDS: u64 = 2;

/// `round(nanos / 10^9 * rate)`: the frame nearest to a time, halves rounded up.
pub open spec fn nearest_frame(nanos: int, rate: int) -> int {
    (nanos * rate + 500_000_000) / 1_000_000_000
}

/// What is wrong with a track's codec parameters, checked in this order:
/// the sample rate, the channel count, the frame count, then whether the
/// duration and the queue fit their integer types.
pub open spec fn params_error(sample_rate: Option<u32>, channels: Option<u16>, frames: Option<u64>) -> Option<
    OpenError,
> {
    match (sample_rate, channels, frames) {
        (None, _, _) => Some(OpenError::NoSampleRate),
        (Some(s), _, _) if s == 0 => Some(OpenError::NoSampleRate),
        (_, None, _) => Some(OpenError::NoChannels),
        (_, Some(c), _) if c == 0 => Some(OpenError::NoChannels),
        (_, _, None) => Some(OpenError::NoDuration),
        (Some(s), Some(c), Some(n)) => if n * c > u64::MAX || n * NANOS_PER_SEC / (s as int)
            > u64::MAX {
            Some(OpenError::TooLong)
        } else if s * c * QUEUE_SECONDS > usize::MAX {
            Some(OpenError::BufferTooLarge)
        } else {
            None
        },
    }
}

/// Immutable description of a loaded track.
#[derive(Debug, Clone, Copy, PartialEq, Eq, Structural)]
pub struct TrackInfo {
    /// Frames per second.
    pub sample_rate: u32,
    /// Samples per frame.
    pub channels: u16,
    /// Frames in the whole track.
    pub frames: u64,
}

impl TrackInfo {
    /// Duration in interleaved-sample units: frames times channels.
    pub open spec fn duration(self) -> int {
        self.frames as int * self.channels as int
    }

    /// Samples held by a queue that buffers two seconds of audio.
    pub open spec fn capacity(self) -> int {
        self.sample_rate as int * self.channels as int * QUEUE_SECONDS as int
    }

    pub open spec fn wf(self) -> bool {
        &&& self.sample_rate > 0
        &&& self.channels > 0
        &&& self.duration() <= u64::MAX
        &&& self.end_nanos() <= u64::MAX
        &&& self.capacity() <= usize::MAX
    }

    /// Builds the descriptor from a track's codec parameters.
    pub fn from_codec_params(sample_rate: Option<u32>, channels: Option<u16>, frames: Option<u64>) -> (r: Result<
        TrackInfo,
        OpenError,
    >)
        ensures
            r matches Err(e) ==> params_error(sample_rate, channels, frames) == Some(e),
            r is Ok <==> params_error(sample_rate, channels, frames) is None,
            r matches Ok(t) ==> t.wf() && sample_rate == Some(t.sample_rate) && channels == Some(
                t.channels,
            ) && frames == Some(t.frames),
    {
        let sample_rate = match sample_rate {
            Some(s) if s > 0 => s,
            _ => return Err(OpenError::NoSampleRate),
        };
        let channels = match channels {
            Some(c) if c > 0 => c,
            _ => return Err(OpenError::NoChannels),
        };
        let frames = match frames {
            Some(n) => n,
            None => return Err(OpenError::NoDuration),
        };
        if frames > u64::MAX / (channels as u64) {
            proof {
                assert(frames * channels > u64::MAX) by (nonlinear_arith)
                    requires
                        frames > u64::MAX / (channels as u64),
                        channels > 0,
                ;
            }
            return Err(OpenError::TooLong);
        }
        proof {
            assert(frames * channels <= u64::MAX) by (nonlinear_arith)
                requires
                    frames <= u64::MAX / (channels as u64),
                    channels > 0,
            ;
        }
        proof {
            lemma_mul_u128(frames as int, NANOS_PER_SEC as int, u64::MAX as int, NANOS_PER_SEC as int);
        }
        let end: u128 = frames as u128 * NANOS_PER_SEC as u128 / sample_rate as u128;
        if end > u64::MAX as u128 {
            return Err(OpenError::TooLong);
        }
        proof {
            lemma_mul_u128(sample_rate as int, channels as int, u32::MAX as int, u16::MAX as int);
            lemma_mul_u128(
                sample_rate * channels,
                QUEUE_SECONDS as int,
                u32::MAX * u16::MAX,
                QUEUE_SECONDS as int,
            );
        }
        let cap: u128 = sample_rate as u128 * channels as u128 * QUEUE_SECONDS as u128;
        if cap > usize::MAX as u128 {
            return Err(OpenError::BufferTooLarge);
        }
        Ok(TrackInfo { sample_rate, channels, frames })
    }

    /// Track length in interleaved samples.
    pub fn duration_samples(&self) -> (r: u64)
        requires
            self.wf(),
        ensures
            r == self.duration(),
    {
        self.frames * self.channels as u64
    }

    /// Capacity of the sample queue: two seconds of interleaved audio.
    pub fn queue_capacity(&self) -> (r: usize)
        requires
            self.wf(),
        ensures
            r == self.capacity(),
            r > 0,
    {
        proof {
            assert(self.sample_rate * self.channels > 0) by (nonlinear_arith)
                requires
                    self.sample_rate > 0,
                    self.channels > 0,
            ;
        }
        (self.sample_rate as u64 * self.channels as u64 * QUEUE_SECONDS) as usize
    }

    /// Whether `nanos` lies inside the track: `nanos / 10^9 * rate < frames`.
    pub open spec fn in_range(self, nanos: int) -> bool {
        nanos * self.sample_rate < self.frames * NANOS_PER_SEC
    }

    /// The playback-clock value for a time: `round(t * rate) * channels`.
    pub open spec fn clock_at(self, nanos: int) -> int {
        nearest_frame(nanos, self.sample_rate as int) * self.channels
    }

    /// The clock value at which playback resumes after seeking to `nanos`,
    /// with the frame the source is asked to seek to.
    pub fn seek_target(&self, nanos: u64) -> (r: Result<SeekTarget, SeekError>)
        requires
            self.wf(),
        ensures
            r is Err <==> !self.in_range(nanos as int),
            r is Err ==> r == Err::<SeekTarget, SeekError>(SeekError::OutOfRange),
            r matches Ok(t) ==> t.frame == nearest_frame(nanos as int, self.sample_rate as int)
                && t.clock == self.clock_at(nanos as int) && t.clock <= self.duration(),
    {
        proof {
            lemma_mul_u128(nanos as int, self.sample_rate as int, u64::MAX as int, u32::MAX as int);
            lemma_mul_u128(self.frames as int, NANOS_PER_SEC as int, u64::MAX as int, NANOS_PER_SEC as int);
        }
        let scaled: u128 = nanos as u128 * self.sample_rate as u128;
        let end: u128 = self.frames as u128 * NANOS_PER_SEC as u128;
        if scaled >= end {
            return Err(SeekError::OutOfRange);
        }
        let frame128: u128 = (scaled + 500_000_000) / (NANOS_PER_SEC as u128);
        proof {
            assert(frame128 <= self.frames) by (nonlinear_arith)
                requires
                    scaled < end,
                    end == self.frames * 1_000_000_000,
                    frame128 == (scaled + 500_000_000) / 1_000_000_000,
            ;
            assert(frame128 * self.channels <= self.frames * self.channels) by (nonlinear_arith)
                requires
                    frame128 <= self.frames,
            ;
        }
        let frame = frame128 as u64;
        Ok(SeekTarget { frame, clock: frame * self.channels as u64 })
    }

    /// Time in nanoseconds of a playback-clock value, rounded down, where a
    /// clock past the end of the track counts as the end.
    pub open spec fn nanos_at(self, clock: int) -> int {
        (vstd::math::min(clock, self.duration()) / self.channels as int) * NANOS_PER_SEC
            / self.sample_rate as int
    }

    /// End of the track in nanoseconds, rounded down.
    pub open spec fn end_nanos(self) -> int {
        self.frames * NANOS_PER_SEC / self.sample_rate as int
    }

    /// The time one second before or after the position of `clock`: never
    /// before the start, never past the end of the track.
    pub fn step_target(&self, clock: u64, forward: bool) -> (r: u64)
        requires
            self.wf(),
        ensures
            forward ==> r as int == vstd::math::min(
                self.nanos_at(clock as int) + NANOS_PER_SEC,
                self.end_nanos(),
            ),
            !forward ==> r as int == vstd::math::max(self.nanos_at(clock as int) - NANOS_PER_SEC, 0),
    {
        let duration = self.duration_samples();
        let position = if clock < duration {
            clock
        } else {
            duration
        };
        let frame: u64 = position / self.channels as u64;
        proof {
            assert(frame <= self.frames) by (nonlinear_arith)
                requires
                    frame == position as int / (self.channels as int),
                    position <= self.frames * self.channels,
                    self.channels > 0,
            ;
            lemma_mul_u128(frame as int, NANOS_PER_SEC as int, u64::MAX as int, NANOS_PER_SEC as int);
            lemma_mul_u128(self.frames as int, NANOS_PER_SEC as int, u64::MAX as int, NANOS_PER_SEC as int);
        }
        let now: u128 = frame as u128 * NANOS_PER_SEC as u128 / self.sample_rate as u128;
        let end: u128 = self.frames as u128 * NANOS_PER_SEC as u128 / self.sample_rate as u128;
        proof {
            assert(now <= end) by (nonlinear_arith)
                requires
                    now == frame * 1_000_000_000 / self.sample_rate as int,
                    end == self.frames * 1_000_000_000 / self.sample_rate as int,
                    frame <= self.frames,
                    self.sample_rate > 0,
            ;
        }
        if forward {
            let ahead: u128 = now + NANOS_PER_SEC as u128;
            if ahead < end {
                ahead as u64
            } else {
                end as u64
            }
        } else if now >= NANOS_PER_SEC as u128 {
            (now - NANOS_PER_SEC as u128) as u64
        } else {
            0
        }
    }
}

/// Where playback restarts after a seek.
#[derive(Debug, Clone, Copy, PartialEq, Eq, Structural)]
pub struct SeekTarget {
    /// Frame the source is asked to seek to.
    pub frame: u64,
    /// Playback-clock value matching that frame.
    pub clock: u64,
}

} // verus!
