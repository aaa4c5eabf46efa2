use vstd::prelude::*;
use crate::pcm::{interleave, PcmBlock};
use crate::queue::{accepted_of, producer_capacity, SampleProducer};

verus! {

/// Failures that the demuxer or the decoder can report.
#[derive(Debug, Clone, Copy, PartialEq, Eq, Structural)]
pub enum StreamError {
    /// The reader must be reset before it can go on.
    ResetRequired,
    /// The stream ended: the last packet has been read.
    EndOfStream,
    /// Reading the source failed.
    Io,
    /// A packet holds malformed data.
    Decode,
    /// The source could not be repositioned.
    Seek,
    /// The stream uses a feature that is not supported.
    Unsupported,
    /// A limit of the decoder was exceeded.
    Limit,
}

/// What a reading loop does after a failed packet read.
#[derive(Debug, Clone, Copy, PartialEq, Eq, Structural)]
pub enum ReadStep {
    /// Read again.
    Retry,
    /// The stream is over; end normally.
    Finish,
    /// The stream cannot go on; end with an error.
    Fail,
}

/// The envelope pass reads again after a reset request, ends normally at
/// the end of the stream, and fails on anything else.
pub fn envelope_read_step(e: StreamError) -> (r: ReadStep)
    ensures
        r == (match e {
            StreamError::ResetRequired => ReadStep::Retry,
            StreamError::EndOfStream => ReadStep::Finish,
            _ => ReadStep::Fail,
        }),
{
    match e {
        StreamError::ResetRequired => ReadStep::Retry,
        StreamError::EndOfStream => ReadStep::Finish,
        _ => ReadStep::Fail,
    }
}

/// The decode worker ends normally at the end of the stream (and raises
/// "is done"); any other read failure stops it.
pub fn playback_read_step(e: StreamError) -> (r: ReadStep)
    ensures
        r == (if e == StreamError::EndOfStream {
            ReadStep::Finish
        } else {
            ReadStep::Fail
        }),
{
    match e {
        StreamError::EndOfStream => ReadStep::Finish,
        _ => ReadStep::Fail,
    }
}

/// A packet that fails to decode because of bad data or a short read is
/// skipped; any other decoder failure is fatal.
pub fn decode_error_is_transient(e: StreamError) -> (r: bool)
    ensures
        r == (e == StreamError::Io || e == StreamError::Decode),
{
    match e {
        StreamError::Io | StreamError::Decode => true,
        _ => false,
    }
}

/// What the decode worker's thread does next.
#[derive(Debug, Clone, Copy, PartialEq, Eq, Structural)]
pub enum WorkerStep {
    /// Everything decoded is queued: read and decode the next packet.
    NeedPacket,
    /// The queue is full: back off briefly, then step again.
    Wait,
    /// Playback was paused or stopped: leave the loop, keeping what is
    /// still pending for a later resume.
    Paused,
}

/// The decode worker's state: the queue end it fills and the samples of the
/// current packet that the queue has not yet taken.
pub struct DecodeWorker {
    track_id: u32,
    limit: u64,
    queue: SampleProducer,
    pending: Vec<i32>,
    next: usize,
    accepted: u64,
    decoded: Ghost<Seq<i32>>,
    pushed: Ghost<Seq<i32>>,
    earlier: Ghost<Seq<i32>>,
}

impl DecodeWorker {
    /// Every sample decoded from the accepted packets, in order.
    pub closed spec fn decoded(&self) -> Seq<i32> {
        self.decoded@
    }

    /// Every sample the queue has accepted from this worker, in order.
    pub closed spec fn pushed(&self) -> Seq<i32> {
        self.pushed@
    }

    /// Decoded samples not yet handed to the queue.
    pub closed spec fn backlog(&self) -> Seq<i32> {
        self.pending@.subrange(self.next as int, self.pending@.len() as int)
    }

    pub closed spec fn track(&self) -> u32 {
        self.track_id
    }

    /// Most samples this worker hands over: what is left of the track.
    pub closed spec fn limit(&self) -> nat {
        self.limit as nat
    }

    /// Everything the queue has accepted through this worker's producer end.
    pub closed spec fn queue_accepted(&self) -> Seq<i32> {
        accepted_of(self.queue)
    }

    /// What the producer end had accepted before the worker took it.
    pub closed spec fn earlier(&self) -> Seq<i32> {
        self.earlier@
    }

    pub closed spec fn queue_capacity(&self) -> nat {
        producer_capacity(self.queue)
    }

    /// The queue receives the decoded stream in order, without loss or
    /// repetition: what it took, followed by the backlog, is what was decoded.
    pub closed spec fn wf(&self) -> bool {
        &&& self.next <= self.pending@.len()
        &&& self.pushed@ + self.backlog() == self.decoded@
        &&& self.decoded@.len() <= self.limit
        &&& self.accepted == self.decoded@.len()
        &&& accepted_of(self.queue) == self.earlier@ + self.pushed@
    }

    /// A worker for `track_id` that fills `queue` with at most `limit`
    /// samples: the rest of the track from the position it starts at.
    pub fn new(track_id: u32, limit: u64, queue: SampleProducer) -> (r: DecodeWorker)
        ensures
            r.wf(),
            r.track() == track_id,
            r.limit() == limit,
            r.decoded() == Seq::<i32>::empty(),
            r.pushed() == Seq::<i32>::empty(),
            r.backlog() == Seq::<i32>::empty(),
            r.earlier() == accepted_of(queue),
            r.queue_capacity() == producer_capacity(queue),
    {
        let r = DecodeWorker {
            track_id,
            limit,
            queue,
            pending: Vec::new(),
            next: 0,
            accepted: 0,
            decoded: Ghost(Seq::empty()),
            pushed: Ghost(Seq::empty()),
            earlier: Ghost(accepted_of(queue)),
        };
        proof {
            assert(accepted_of(queue) + Seq::<i32>::empty() =~= accepted_of(queue));
            assert(r.backlog() =~= Seq::<i32>::empty());
        }
        r
    }

    /// Whether a packet belongs to the worker's track.
    pub fn accepts(&self, track_id: u32) -> (r: bool)
        ensures
            r == (track_id == self.track()),
    {
        track_id == self.track_id
    }

    /// Whether decoded samples still wait for room in the queue.
    pub fn has_backlog(&self) -> (r: bool)
        requires
            self.wf(),
        ensures
            r == (self.backlog().len() > 0),
    {
        self.next < self.pending.len()
    }

    /// One turn of the worker's loop. While playing, it hands the backlog to
    /// the queue until the queue refuses a sample or the backlog is empty.
    pub fn step(&mut self, playing: bool) -> (r: WorkerStep)
        requires
            old(self).wf(),
        ensures
            final(self).wf(),
            final(self).decoded() == old(self).decoded(),
            final(self).track() == old(self).track(),
            final(self).limit() == old(self).limit(),
            final(self).queue_capacity() == old(self).queue_capacity(),
            !playing ==> r == WorkerStep::Paused && final(self).backlog() == old(self).backlog()
                && final(self).pushed() == old(self).pushed(),
            playing ==> r != WorkerStep::Paused,
            r == WorkerStep::NeedPacket ==> final(self).backlog().len() == 0,
            r == WorkerStep::Wait ==> final(self).backlog().len() > 0,
            final(self).pushed() + final(self).backlog() == old(self).pushed() + old(self).backlog(),
            old(self).pushed().len() <= final(self).pushed().len(),
            final(self).earlier() == old(self).earlier(),
    {
        if !playing {
            return WorkerStep::Paused;
        }
        while self.next < self.pending.len()
            invariant_except_break
                self.wf(),
                self.earlier@ == old(self).earlier@,
                self.pushed@ + self.backlog() == old(self).pushed@ + old(self).backlog(),
                self.decoded() == old(self).decoded(),
                self.track() == old(self).track(),
                self.limit() == old(self).limit(),
                self.queue_capacity() == old(self).queue_capacity(),
                old(self).pushed().len() <= self.pushed().len(),
            ensures
                self.wf(),
                self.earlier@ == old(self).earlier@,
                self.pushed@ + self.backlog() == old(self).pushed@ + old(self).backlog(),
                self.decoded() == old(self).decoded(),
                self.track() == old(self).track(),
                self.limit() == old(self).limit(),
                self.queue_capacity() == old(self).queue_capacity(),
                old(self).pushed().len() <= self.pushed().len(),
                self.next < self.pending@.len() ==> self.backlog().len() > 0,
            decreases self.pending@.len() - self.next,
        {
            let v = self.pending[self.next];
            if !self.queue.push(v) {
                break;
            }
            proof {
                let b = self.backlog();
                assert(b[0] == v);
                assert(self.pending@.subrange(self.next + 1, self.pending@.len() as int) =~= b.subrange(
                    1,
                    b.len() as int,
                ));
                assert(self.pushed@.push(v) + b.subrange(1, b.len() as int) =~= self.pushed@ + b);
                assert(self.earlier@ + self.pushed@.push(v) =~= (self.earlier@ + self.pushed@).push(v));
            }
            self.pushed = Ghost(self.pushed@.push(v));
            self.next = self.next + 1;
        }
        if self.next < self.pending.len() {
            WorkerStep::Wait
        } else {
            WorkerStep::NeedPacket
        }
    }

    /// Takes the samples of a freshly decoded packet, once the previous
    /// packet's samples are all queued. Samples beyond the worker's limit
    /// (past the declared end of the track) are dropped.
    pub fn take_block(&mut self, block: &PcmBlock)
        requires
            old(self).wf(),
            old(self).backlog().len() == 0,
            block.wf(),
        ensures
            final(self).wf(),
            final(self).decoded() == old(self).decoded() + block.interleaved().take(
                vstd::math::min(
                    block.interleaved().len() as int,
                    old(self).limit() - old(self).decoded().len(),
                ),
            ),
            final(self).backlog() == final(self).decoded().skip(old(self).decoded().len() as int),
            final(self).pushed() == old(self).pushed(),
            final(self).earlier() == old(self).earlier(),
            final(self).track() == old(self).track(),
            final(self).limit() == old(self).limit(),
            final(self).queue_capacity() == old(self).queue_capacity(),
    {
        let mut samples = interleave(block);
        proof {
            assert(self.pushed@ =~= self.decoded@) by {
                assert(self.pushed@ + self.backlog() == self.decoded@);
                assert(self.pushed@ + Seq::<i32>::empty() =~= self.pushed@);
            }
        }
        let room: u64 = self.limit - self.accepted;
        if (samples.len() as u64) > room {
            samples.truncate(room as usize);
        }
        let ghost kept = block.interleaved().take(samples@.len() as int);
        proof {
            assert(samples@ =~= kept);
            assert(samples@.subrange(0, samples@.len() as int) =~= samples@);
            assert((self.decoded@ + kept).skip(self.decoded@.len() as int) =~= kept);
        }
        self.accepted = self.accepted + samples.len() as u64;
        self.pending = samples;
        self.next = 0;
        self.decoded = Ghost(self.decoded@ + kept);
    }
}

/// The decoded packets one after the other.
pub open spec fn joined(blocks: Seq<PcmBlock>) -> Seq<i32>
    decreases blocks.len(),
{
    if blocks.len() == 0 {
        Seq::empty()
    } else {
        joined(blocks.drop_last()) + blocks.last().interleaved()
    }
}

/// What a worker that starts empty with `limit` has accepted after taking
/// `blocks`, packet by packet as `take_block` does.
pub open spec fn fed(blocks: Seq<PcmBlock>, limit: int) -> Seq<i32>
    decreases blocks.len(),
{
    if blocks.len() == 0 {
        Seq::empty()
    } else {
        let before = fed(blocks.drop_last(), limit);
        let next = blocks.last().interleaved();
        before + next.take(vstd::math::min(next.len() as int, limit - before.len()))
    }
}

/// A worker started on a source positioned at some point delivers the
/// decoded stream from that point, cut at its limit, whatever the packet
/// boundaries: so a worker restarted from the beginning (after a load or a
/// reset) delivers the same samples in the same order.
pub proof fn lemma_fed_is_prefix(blocks: Seq<PcmBlock>, limit: int)
    requires
        limit >= 0,
    ensures
        fed(blocks, limit) == joined(blocks).take(vstd::math::min(joined(blocks).len() as int, limit)),
    decreases blocks.len(),
{
    if blocks.len() > 0 {
        lemma_fed_is_prefix(blocks.drop_last(), limit);
        let before = fed(blocks.drop_last(), limit);
        let all_before = joined(blocks.drop_last());
        let next = blocks.last().interleaved();
        let k = vstd::math::min(next.len() as int, limit - before.len());
        if all_before.len() <= limit {
            assert(before == all_before);
            assert(before + next.take(k) =~= (all_before + next).take(
                vstd::math::min((all_before + next).len() as int, limit),
            ));
        } else {
            assert(before.len() == limit);
            assert(next.take(0) =~= Seq::<i32>::empty());
            assert(before + next.take(k) =~= (all_before + next).take(
                vstd::math::min((all_before + next).len() as int, limit),
            ));
        }
    }
}

impl DecodeWorker {
    /// The queue receives the decoded stream in order, without loss or
    /// repetition: what it accepted from the worker, followed by the backlog,
    /// is what was decoded. And the worker never hands over more than its
    /// limit, so the clock never runs past the end of the track.
    pub proof fn lemma_stream_kept(&self)
        requires
            self.wf(),
        ensures
            self.pushed() + self.backlog() == self.decoded(),
            self.queue_accepted() == self.earlier() + self.pushed(),
            self.pushed().len() <= self.decoded().len() <= self.limit(),
    {
    }
}

} // verus!
