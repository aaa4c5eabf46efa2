use vstd::prelude::*;
use crate::error::{SeekError, TransportError};
use crate::track::{nearest_frame, SeekTarget, TrackInfo};

verus! {

/// Where the transport stands.
#[derive(Debug, Clone, Copy, PartialEq, Eq, Structural)]
pub enum TransportState {
    /// Loaded (or reset) and not playing: no output stream, no worker.
    Idle,
    /// The worker decodes into the queue and the stream plays it.
    Playing,
    /// The stream is paused; queue, clock and the worker's backlog are kept.
    Paused,
    /// The worker reached the end of the stream; the stream drains the
    /// queue, then plays silence.
    Done,
    /// The worker stopped on an unrecoverable decode error; the stream
    /// drains the queue, then playback stalls at its last position until a
    /// seek or a reset reopens the source.
    Failed,
}

/// What the controller must do to carry out `play`, in this order: join the
/// previous worker, open an output stream on a fresh sink, raise "is playing",
/// start a worker, resume the stream.
#[derive(Debug, Clone, Copy, PartialEq, Eq, Structural)]
pub struct PlayPlan {
    pub join_worker: bool,
    pub open_stream: bool,
    pub start_worker: bool,
}

/// What the controller must do to stop the current playback session before
/// a seek or a reset: pause and drop the stream, lower "is playing" and "is
/// done", join the worker.
#[derive(Debug, Clone, Copy, PartialEq, Eq, Structural)]
pub struct Teardown {
    pub pause_stream: bool,
    pub join_worker: bool,
}

/// The steps of a seek: tear the session down, replace the queue with an
/// empty one, set the clock to `clock`, then play.
#[derive(Debug, Clone, Copy, PartialEq, Eq, Structural)]
pub struct SeekPlan {
    pub teardown: Teardown,
    pub target: SeekTarget,
    pub play: PlayPlan,
}

/// The play/pause/seek/reset state machine of one loaded track. It decides;
/// the controller owns the stream, the worker thread and the decoder, and
/// carries the decisions out.
#[derive(Debug, Clone, Copy, PartialEq, Eq, Structural)]
pub struct Transport {
    pub info: TrackInfo,
    pub state: TransportState,
    /// An output stream exists.
    pub stream_open: bool,
    /// A worker thread has been started and not yet joined.
    pub worker_held: bool,
    /// The worker reported the end of the stream.
    pub end_reached: bool,
    /// The worker reported an unrecoverable error.
    pub failed: bool,
    /// Clock value at which the current queue's audio starts.
    pub origin: u64,
}

impl Transport {
    pub open spec fn wf(self) -> bool {
        &&& self.info.wf()
        &&& self.origin <= self.info.duration()
        &&& (self.state == TransportState::Idle) == !self.stream_open
        &&& self.state == TransportState::Idle ==> !self.worker_held && !self.end_reached && !self.failed
        &&& self.state == TransportState::Playing ==> self.worker_held && !self.end_reached && !self.failed
        &&& self.state == TransportState::Done ==> self.end_reached
        &&& self.state == TransportState::Failed ==> self.failed
    }

    /// A freshly loaded track: idle, clock at zero.
    pub open spec fn loaded(info: TrackInfo) -> Transport {
        Transport {
            info,
            state: TransportState::Idle,
            stream_open: false,
            worker_held: false,
            end_reached: false,
            failed: false,
            origin: 0,
        }
    }

    pub open spec fn play_plan(self) -> PlayPlan {
        match self.state {
            TransportState::Idle => PlayPlan { join_worker: false, open_stream: true, start_worker: true },
            TransportState::Paused => if self.end_reached || self.failed {
                PlayPlan { join_worker: false, open_stream: false, start_worker: false }
            } else {
                PlayPlan { join_worker: self.worker_held, open_stream: false, start_worker: true }
            },
            _ => PlayPlan { join_worker: false, open_stream: false, start_worker: false },
        }
    }

    pub open spec fn after_play(self) -> Transport {
        match self.state {
            TransportState::Idle => Transport {
                state: TransportState::Playing,
                stream_open: true,
                worker_held: true,
                ..self
            },
            TransportState::Paused => if self.failed {
                Transport { state: TransportState::Failed, ..self }
            } else if self.end_reached {
                Transport { state: TransportState::Done, ..self }
            } else {
                Transport { state: TransportState::Playing, worker_held: true, ..self }
            },
            _ => self,
        }
    }

    pub open spec fn after_pause(self) -> Transport {
        if self.stream_open {
            Transport { state: TransportState::Paused, ..self }
        } else {
            self
        }
    }

    pub open spec fn teardown(self) -> Teardown {
        Teardown { pause_stream: self.stream_open, join_worker: self.worker_held }
    }

    /// The session stopped, the clock moved to `clock`: idle again.
    pub open spec fn stopped_at(self, clock: u64) -> Transport {
        Transport {
            state: TransportState::Idle,
            stream_open: false,
            worker_held: false,
            end_reached: false,
            failed: false,
            origin: clock,
            ..self
        }
    }

    pub open spec fn after_seek(self, clock: u64) -> Transport {
        self.stopped_at(clock).after_play()
    }

    pub open spec fn after_reset(self) -> Transport {
        self.stopped_at(0)
    }

    pub open spec fn after_end(self) -> Transport {
        match self.state {
            TransportState::Playing => Transport { state: TransportState::Done, end_reached: true, ..self },
            TransportState::Paused => Transport { end_reached: true, ..self },
            _ => self,
        }
    }

    pub open spec fn after_failure(self) -> Transport {
        match self.state {
            TransportState::Playing => Transport { state: TransportState::Failed, failed: true, ..self },
            TransportState::Paused => Transport { failed: true, ..self },
            _ => self,
        }
    }

    /// The transport of a track just loaded.
    pub fn new(info: TrackInfo) -> (r: Transport)
        requires
            info.wf(),
        ensures
            r == Transport::loaded(info),
            r.wf(),
    {
        Transport {
            info,
            state: TransportState::Idle,
            stream_open: false,
            worker_held: false,
            end_reached: false,
            failed: false,
            origin: 0,
        }
    }

    /// Starts or resumes playback. From idle a stream and a worker are
    /// started; from pause only a worker, after joining the one that
    /// stopped, unless the stream has already ended. Playing or done: nothing.
    pub fn play(&mut self) -> (plan: PlayPlan)
        requires
            old(self).wf(),
        ensures
            plan == old(self).play_plan(),
            *final(self) == old(self).after_play(),
            final(self).wf(),
    {
        match self.state {
            TransportState::Idle => {
                self.state = TransportState::Playing;
                self.stream_open = true;
                self.worker_held = true;
                PlayPlan { join_worker: false, open_stream: true, start_worker: true }
            },
            TransportState::Paused => {
                if self.failed {
                    self.state = TransportState::Failed;
                    PlayPlan { join_worker: false, open_stream: false, start_worker: false }
                } else if self.end_reached {
                    self.state = TransportState::Done;
                    PlayPlan { join_worker: false, open_stream: false, start_worker: false }
                } else {
                    let join = self.worker_held;
                    self.state = TransportState::Playing;
                    self.worker_held = true;
                    PlayPlan { join_worker: join, open_stream: false, start_worker: true }
                }
            },
            _ => PlayPlan { join_worker: false, open_stream: false, start_worker: false },
        }
    }

    /// Undoes a `play` from idle whose output stream could not be opened.
    pub fn stream_failed(&mut self)
        requires
            old(self).wf(),
        ensures
            *final(self) == old(self).stopped_at(old(self).origin),
            final(self).wf(),
    {
        self.state = TransportState::Idle;
        self.stream_open = false;
        self.worker_held = false;
        self.end_reached = false;
        self.failed = false;
    }

    /// Pauses the stream. Queue, clock and worker state are kept; the worker
    /// leaves its loop by itself. Refused when no stream exists.
    pub fn pause(&mut self) -> (r: Result<(), TransportError>)
        requires
            old(self).wf(),
        ensures
            r is Ok <==> old(self).stream_open,
            r is Err ==> r == Err::<(), TransportError>(TransportError::NoStream),
            *final(self) == old(self).after_pause(),
            final(self).wf(),
    {
        if !self.stream_open {
            return Err(TransportError::NoStream);
        }
        self.state = TransportState::Paused;
        Ok(())
    }

    /// The worker raised "is done": the stream now drains what is queued.
    pub fn end_of_stream(&mut self)
        requires
            old(self).wf(),
        ensures
            *final(self) == old(self).after_end(),
            final(self).wf(),
    {
        match self.state {
            TransportState::Playing => {
                self.state = TransportState::Done;
                self.end_reached = true;
            },
            TransportState::Paused => {
                self.end_reached = true;
            },
            _ => {},
        }
    }

    /// The worker stopped on an unrecoverable error: the failure is kept
    /// until a seek or a reset, and no worker is restarted before then.
    pub fn worker_failed(&mut self)
        requires
            old(self).wf(),
        ensures
            *final(self) == old(self).after_failure(),
            final(self).wf(),
    {
        match self.state {
            TransportState::Playing => {
                self.state = TransportState::Failed;
                self.failed = true;
            },
            TransportState::Paused => {
                self.failed = true;
            },
            _ => {},
        }
    }

    /// Where playback would restart after seeking to `nanos`; nothing changes.
    pub fn seek_target(&self, nanos: u64) -> (r: Result<SeekTarget, SeekError>)
        requires
            self.wf(),
        ensures
            r is Err <==> !self.info.in_range(nanos as int),
            r is Err ==> r == Err::<SeekTarget, SeekError>(SeekError::OutOfRange),
            r matches Ok(t) ==> t.clock == self.info.clock_at(nanos as int),
    {
        self.info.seek_target(nanos)
    }

    /// Seeks to `nanos`, once the controller holds a source positioned
    /// there: the session is torn down, the queue replaced by an empty one,
    /// the clock set to `round(t * rate) * channels`, and playback started.
    /// A time at or past the end is refused and nothing changes.
    pub fn seek(&mut self, nanos: u64) -> (r: Result<SeekPlan, SeekError>)
        requires
            old(self).wf(),
        ensures
            final(self).wf(),
            r is Err <==> !old(self).info.in_range(nanos as int),
            r is Err ==> r == Err::<SeekPlan, SeekError>(SeekError::OutOfRange) && *final(self)
                == *old(self),
            r matches Ok(p) ==> {
                &&& p.target.clock == old(self).info.clock_at(nanos as int)
                &&& p.teardown == old(self).teardown()
                &&& p.play == old(self).stopped_at(p.target.clock).play_plan()
                &&& *final(self) == old(self).after_seek(p.target.clock)
            },
    {
        let target = match self.info.seek_target(nanos) {
            Ok(t) => t,
            Err(e) => return Err(e),
        };
        let teardown = Teardown { pause_stream: self.stream_open, join_worker: self.worker_held };
        self.state = TransportState::Idle;
        self.stream_open = false;
        self.worker_held = false;
        self.end_reached = false;
        self.failed = false;
        self.origin = target.clock;
        let play = self.play();
        Ok(SeekPlan { teardown, target, play })
    }

    /// Rewinds to the start without playing: the session is torn down, the
    /// queue replaced and the clock set to zero.
    pub fn reset(&mut self) -> (r: Teardown)
        requires
            old(self).wf(),
        ensures
            r == old(self).teardown(),
            *final(self) == old(self).after_reset(),
            final(self).wf(),
    {
        let teardown = Teardown { pause_stream: self.stream_open, join_worker: self.worker_held };
        self.state = TransportState::Idle;
        self.stream_open = false;
        self.worker_held = false;
        self.end_reached = false;
        self.failed = false;
        self.origin = 0;
        teardown
    }
}

/// After a seek to a time inside the track, playback restarts on an empty
/// queue with the clock at `round(t * rate) * channels`, a value within the
/// track.
pub proof fn lemma_seek_sets_clock(t: Transport, nanos: u64)
    requires
        t.wf(),
        t.info.in_range(nanos as int),
    ensures
        0 <= t.info.clock_at(nanos as int) <= t.info.duration(),
        t.after_seek(t.info.clock_at(nanos as int) as u64).origin == t.info.clock_at(nanos as int),
        t.after_seek(t.info.clock_at(nanos as int) as u64).state == TransportState::Playing,
        t.stopped_at(t.info.clock_at(nanos as int) as u64).play_plan().open_stream,
        t.after_seek(t.info.clock_at(nanos as int) as u64).wf(),
{
    let rate = t.info.sample_rate as int;
    let frame = nearest_frame(nanos as int, rate);
    assert(0 <= frame <= t.info.frames) by (nonlinear_arith)
        requires
            nanos * rate < t.info.frames * 1_000_000_000,
            frame == (nanos * rate + 500_000_000) / 1_000_000_000,
            nanos >= 0,
            rate > 0,
    ;
    assert(0 <= frame * t.info.channels <= t.info.frames * t.info.channels) by (nonlinear_arith)
        requires
            0 <= frame <= t.info.frames,
            t.info.channels > 0,
    ;
}

/// Only a seek or a reset moves the clock's origin: playing, pausing and
/// reaching the end of the stream keep it, so from there the clock only
/// grows by what the sink plays.
pub proof fn lemma_origin_kept(t: Transport)
    requires
        t.wf(),
    ensures
        t.after_play().origin == t.origin,
        t.after_pause().origin == t.origin,
        t.after_end().origin == t.origin,
        t.after_failure().origin == t.origin,
{
}

/// Pausing then playing, with no seek between, returns to the very same
/// session: same stream and queue, same clock origin, and the worker
/// restarted on its kept backlog.
pub proof fn lemma_pause_then_play(t: Transport)
    requires
        t.wf(),
        t.state == TransportState::Playing,
    ensures
        t.after_pause().after_play() == t,
        !t.after_pause().play_plan().open_stream,
        t.after_pause().play_plan().start_worker,
{
}

/// A reset brings the transport back to the state of a fresh load, so the
/// `play` that follows takes the same steps as the first `play` after
/// loading: a new stream on an empty queue, a new worker, clock at zero.
pub proof fn lemma_reset_then_play(t: Transport)
    requires
        t.wf(),
    ensures
        t.after_reset() == Transport::loaded(t.info),
        t.after_reset().play_plan() == Transport::loaded(t.info).play_plan(),
        t.after_reset().after_play() == Transport::loaded(t.info).after_play(),
        t.after_reset().after_reset() == t.after_reset(),
{
}

} // verus!
