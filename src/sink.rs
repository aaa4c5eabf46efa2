use vstd::prelude::*;
use crate::clock::ClockWriter;
use crate::queue::{popped_of, SampleConsumer};

verus! {

/// What the output device's realtime callback runs: it drains the sample
/// queue into the device buffer and advances the playback clock by what it
/// really played.
pub struct OutputSink {
    queue: SampleConsumer,
    clock: ClockWriter,
    start: Ghost<u64>,
    earlier: Ghost<Seq<i32>>,
    played: Ghost<Seq<i32>>,
}

impl OutputSink {
    /// Every sample this sink has taken from the queue, in order.
    pub closed spec fn played(&self) -> Seq<i32> {
        self.played@
    }

    /// The clock value when the sink took over the clock.
    pub closed spec fn start(&self) -> u64 {
        self.start@
    }

    /// The clock value the sink last published.
    pub closed spec fn clock_value(&self) -> u64 {
        self.clock.value()
    }

    /// Everything taken from the queue through its consumer end.
    pub closed spec fn queue_popped(&self) -> Seq<i32> {
        popped_of(self.queue)
    }

    /// The queue handed the sink exactly what it played, and the clock
    /// stands at its start plus what was played.
    pub closed spec fn wf(&self) -> bool {
        &&& popped_of(self.queue) == self.earlier@ + self.played@
        &&& self.clock.value() == vstd::math::min(self.start@ + self.played@.len(), u64::MAX as int)
    }

    pub fn new(queue: SampleConsumer, clock: ClockWriter) -> (r: OutputSink)
        ensures
            r.wf(),
            r.played() == Seq::<i32>::empty(),
            r.start() == clock.value(),
            r.clock_value() == clock.value(),
            r.queue_popped() == popped_of(queue),
    {
        let ghost earlier = popped_of(queue);
        let ghost start = clock.value();
        let r = OutputSink { queue, clock, start: Ghost(start), earlier: Ghost(earlier), played: Ghost(Seq::empty()) };
        proof {
            assert(earlier + Seq::<i32>::empty() =~= earlier);
        }
        r
    }

    /// Fills the device buffer: queued samples first, in the order the queue
    /// hands them out, then silence from the first underrun on. Returns how
    /// many samples came from the queue; the clock advances by exactly that
    /// many. Never waits.
    pub fn fill(&mut self, out: &mut Vec<i32>) -> (consumed: usize)
        requires
            old(self).wf(),
        ensures
            final(self).wf(),
            final(out)@.len() == old(out)@.len(),
            consumed <= old(out)@.len(),
            final(self).played() == old(self).played() + final(out)@.subrange(0, consumed as int),
            final(self).queue_popped() == old(self).queue_popped() + final(out)@.subrange(0, consumed as int),
            forall|i: int| consumed <= i < final(out)@.len() ==> #[trigger] final(out)@[i] == 0,
            final(self).start() == old(self).start(),
            final(self).clock_value() == vstd::math::min(
                old(self).clock_value() + consumed,
                u64::MAX as int,
            ),
            final(self).clock_value() == vstd::math::min(
                final(self).start() + final(self).played().len(),
                u64::MAX as int,
            ),
    {
        let n = out.len();
        let mut consumed: usize = 0;
        let mut underrun = false;
        let mut i: usize = 0;
        while i < n
            invariant
                n == out@.len(),
                n == old(out)@.len(),
                consumed <= i <= n,
                !underrun ==> consumed == i,
                self.start@ == old(self).start@,
                self.earlier@ == old(self).earlier@,
                self.clock == old(self).clock,
                self.played@ == old(self).played@ + out@.subrange(0, consumed as int),
                popped_of(self.queue) == old(self).earlier@ + self.played@,
                forall|j: int| consumed <= j < i ==> #[trigger] out@[j] == 0,
            decreases n - i,
        {
            let next = if underrun {
                None
            } else {
                self.queue.pop()
            };
            match next {
                Some(v) => {
                    out.set(i, v);
                    proof {
                        assert(out@.subrange(0, consumed + 1) =~= out@.subrange(0, consumed as int).push(v));
                        assert(old(self).played@ + out@.subrange(0, consumed + 1)
                            =~= self.played@.push(v));
                        assert(old(self).earlier@ + self.played@.push(v) =~= (old(self).earlier@
                            + self.played@).push(v));
                    }
                    self.played = Ghost(self.played@.push(v));
                    consumed = consumed + 1;
                },
                None => {
                    let ghost before = out@;
                    out.set(i, 0);
                    underrun = true;
                    proof {
                        assert(out@.subrange(0, consumed as int) =~= before.subrange(0, consumed as int));
                    }
                },
            }
            i = i + 1;
        }
        self.clock.advance(consumed as u64);
        proof {
            assert(old(self).earlier@ + self.played@ =~= old(self).earlier@ + old(self).played@ + out@.subrange(
                0,
                consumed as int,
            ));
        }
        consumed
    }
}

} // verus!
