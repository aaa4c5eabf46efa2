use vstd::prelude::*;
use vstd::arithmetic::div_mod::{lemma_fundamental_div_mod, lemma_fundamental_div_mod_converse};
use crate::pcm::{interleave, PcmBlock};

verus! {

/// Interleaved samples reduced to one envelope entry, when none is given.
pub const DEFAULT_BLOCK_SIZE: usize = 32;

/// Smallest and largest sample of each displayed channel over one block of
/// the interleaved stream. A channel with no sample in the block keeps the
/// empty range `(i32::MAX, i32::MIN)`.
#[derive(Debug, Clone, Copy, PartialEq, Eq, Structural)]
pub struct Peak {
    pub min_left: i32,
    pub max_left: i32,
    pub min_right: i32,
    pub max_right: i32,
}

pub open spec fn empty_peak() -> Peak {
    Peak { min_left: i32::MAX, max_left: i32::MIN, min_right: i32::MAX, max_right: i32::MIN }
}

/// Sample `i` of a stream with `ch` channels belongs to the left channel.
pub open spec fn is_left(i: int, ch: int) -> bool {
    i % ch == 0
}

/// Sample `i` belongs to the right channel; a mono stream shows its only
/// channel on both sides.
pub open spec fn is_right(i: int, ch: int) -> bool {
    if ch >= 2 {
        i % ch == 1
    } else {
        i % ch == 0
    }
}

pub open spec fn min_i32(a: i32, b: i32) -> i32 {
    if a <= b {
        a
    } else {
        b
    }
}

pub open spec fn max_i32(a: i32, b: i32) -> i32 {
    if a >= b {
        a
    } else {
        b
    }
}

/// `p` widened by sample `v` found at stream position `i`.
pub open spec fn with_sample(p: Peak, v: i32, i: int, ch: int) -> Peak {
    Peak {
        min_left: if is_left(i, ch) {
            min_i32(p.min_left, v)
        } else {
            p.min_left
        },
        max_left: if is_left(i, ch) {
            max_i32(p.max_left, v)
        } else {
            p.max_left
        },
        min_right: if is_right(i, ch) {
            min_i32(p.min_right, v)
        } else {
            p.min_right
        },
        max_right: if is_right(i, ch) {
            max_i32(p.max_right, v)
        } else {
            p.max_right
        },
    }
}

/// The peak of the stream positions `lo .. hi`.
pub open spec fn span_peak(s: Seq<i32>, lo: int, hi: int, ch: int) -> Peak
    decreases hi - lo,
{
    if hi <= lo {
        empty_peak()
    } else {
        with_sample(span_peak(s, lo, hi - 1, ch), s[hi - 1], hi - 1, ch)
    }
}

/// `block` rounded up to whole frames of `ch` samples.
pub open spec fn frame_block(block: int, ch: int) -> int {
    ((block + ch - 1) / ch) * ch
}

/// Every side of the peak holds a real range: smallest at most largest.
pub open spec fn ordered(p: Peak) -> bool {
    p.min_left <= p.max_left && p.min_right <= p.max_right
}

/// Number of blocks of `block` samples needed to cover `len` samples.
pub open spec fn block_count(len: int, block: int) -> int {
    (len + block - 1) / block
}

/// The envelope of an interleaved stream: one peak per block of `block`
/// consecutive samples, the last block possibly shorter.
pub open spec fn envelope(s: Seq<i32>, ch: int, block: int) -> Seq<Peak> {
    Seq::new(
        block_count(s.len() as int, block) as nat,
        |k: int| span_peak(s, k * block, vstd::math::min((k + 1) * block, s.len() as int), ch),
    )
}

/// Builds an envelope from an interleaved stream handed over in pieces of
/// any length: blocks run across the pieces' boundaries.
pub struct EnvelopeBuilder {
    channels: usize,
    block_size: usize,
    peaks: Vec<Peak>,
    current: Peak,
    filled: usize,
    channel: usize,
    seen: Ghost<Seq<i32>>,
}

impl EnvelopeBuilder {
    /// Samples received so far.
    pub closed spec fn samples(&self) -> Seq<i32> {
        self.seen@
    }

    pub closed spec fn channels(&self) -> int {
        self.channels as int
    }

    pub closed spec fn block_size(&self) -> int {
        self.block_size as int
    }

    pub closed spec fn wf(&self) -> bool {
        let s = self.seen@;
        let b = self.block_size as int;
        let n = self.peaks@.len() as int;
        &&& self.channels > 0
        &&& self.block_size > 0
        &&& self.block_size as int % self.channels as int == 0
        &&& self.filled < self.block_size
        &&& self.channel < self.channels
        &&& self.channel == (s.len() as int) % (self.channels as int)
        &&& n * b + self.filled == s.len()
        &&& forall|k: int|
            0 <= k < n ==> #[trigger] self.peaks@[k] == span_peak(s, k * b, (k + 1) * b, self.channels as int)
        &&& self.current == span_peak(s, n * b, s.len() as int, self.channels as int)
    }

    /// The stream holds whole frames only.
    pub closed spec fn whole_frames(&self) -> bool {
        self.seen@.len() as int % self.channels as int == 0
    }

    /// An empty builder for a stream of `channels` channels cut into blocks
    /// of `block_size` interleaved samples, rounded up to whole frames so
    /// that every block shows every channel.
    pub fn new(channels: u16, block_size: usize) -> (r: EnvelopeBuilder)
        requires
            channels > 0,
            block_size > 0,
            block_size + channels <= usize::MAX,
        ensures
            r.wf(),
            r.whole_frames(),
            r.samples() == Seq::<i32>::empty(),
            r.channels() == channels,
            r.block_size() == frame_block(block_size as int, channels as int),
    {
        let ch = channels as usize;
        let frames_per_block = (block_size + ch - 1) / ch;
        proof {
            assert(frames_per_block * ch <= block_size + ch - 1) by (nonlinear_arith)
                requires
                    frames_per_block == (block_size + ch - 1) / ch as int,
                    ch > 0,
            ;
            assert(frames_per_block >= 1) by (nonlinear_arith)
                requires
                    frames_per_block == (block_size + ch - 1) / ch as int,
                    ch > 0,
                    block_size > 0,
            ;
            assert(frames_per_block * ch >= 1) by (nonlinear_arith)
                requires
                    frames_per_block >= 1,
                    ch > 0,
            ;
            lemma_fundamental_div_mod_converse(frames_per_block * ch, ch as int, frames_per_block as int, 0);
        }
        let block = frames_per_block * ch;
        let r = EnvelopeBuilder {
            channels: ch,
            block_size: block,
            peaks: Vec::new(),
            current: Peak { min_left: i32::MAX, max_left: i32::MIN, min_right: i32::MAX, max_right: i32::MIN },
            filled: 0,
            channel: 0,
            seen: Ghost(Seq::empty()),
        };
        proof {
            vstd::arithmetic::div_mod::lemma_small_mod(0, channels as nat);
        }
        r
    }

    /// Appends one sample to the stream.
    fn push(&mut self, v: i32)
        requires
            old(self).wf(),
        ensures
            final(self).wf(),
            final(self).samples() == old(self).samples().push(v),
            final(self).channels() == old(self).channels(),
            final(self).block_size() == old(self).block_size(),
    {
        let ghost s = self.seen@;
        let ghost ch = self.channels as int;
        let ghost b = self.block_size as int;
        let ghost n = self.peaks@.len() as int;
        let ghost i = s.len() as int;
        let left = self.channel == 0;
        let right = if self.channels >= 2 {
            self.channel == 1
        } else {
            self.channel == 0
        };
        let mut p = self.current;
        if left {
            if v < p.min_left {
                p.min_left = v;
            }
            if v > p.max_left {
                p.max_left = v;
            }
        }
        if right {
            if v < p.min_right {
                p.min_right = v;
            }
            if v > p.max_right {
                p.max_right = v;
            }
        }
        let ghost s2 = s.push(v);
        proof {
            assert(p == with_sample(self.current, v, i, ch));
            assert(n * b >= 0) by (nonlinear_arith)
                requires
                    n >= 0,
                    b > 0,
            ;
            lemma_span_prefix(s, s2, n * b, i, ch);
            assert(p == span_peak(s2, n * b, i + 1, ch));
            lemma_next_channel(i, ch);
        }
        self.channel = if self.channel + 1 == self.channels {
            0
        } else {
            self.channel + 1
        };
        self.seen = Ghost(s2);
        if self.filled + 1 == self.block_size {
            self.peaks.push(p);
            self.current = Peak { min_left: i32::MAX, max_left: i32::MIN, min_right: i32::MAX, max_right: i32::MIN };
            self.filled = 0;
            proof {
                assert(n * b + b == (n + 1) * b) by (nonlinear_arith);
                assert forall|k: int| 0 <= k < n + 1 implies #[trigger] self.peaks@[k] == span_peak(
                    s2,
                    k * b,
                    (k + 1) * b,
                    ch,
                ) by {
                    if k < n {
                        assert(0 <= k * b && (k + 1) * b <= n * b) by (nonlinear_arith)
                            requires
                                0 <= k < n,
                                b > 0,
                        ;
                        lemma_span_prefix(s, s2, k * b, (k + 1) * b, ch);
                    }
                }
            }
        } else {
            self.current = p;
            self.filled = self.filled + 1;
            proof {
                assert forall|k: int| 0 <= k < n implies #[trigger] self.peaks@[k] == span_peak(
                    s2,
                    k * b,
                    (k + 1) * b,
                    ch,
                ) by {
                    assert(0 <= k * b && (k + 1) * b <= n * b) by (nonlinear_arith)
                        requires
                            0 <= k < n,
                            b > 0,
                    ;
                    lemma_span_prefix(s, s2, k * b, (k + 1) * b, ch);
                }
            }
        }
    }

    /// Appends a run of samples to the stream.
    pub fn push_samples(&mut self, samples: &Vec<i32>)
        requires
            old(self).wf(),
        ensures
            final(self).wf(),
            final(self).samples() == old(self).samples() + samples@,
            final(self).channels() == old(self).channels(),
            final(self).block_size() == old(self).block_size(),
    {
        let mut i: usize = 0;
        while i < samples.len()
            invariant
                self.wf(),
                i <= samples@.len(),
                self.samples() == old(self).samples() + samples@.subrange(0, i as int),
                self.channels() == old(self).channels(),
                self.block_size() == old(self).block_size(),
            decreases samples@.len() - i,
        {
            self.push(samples[i]);
            proof {
                assert(samples@.subrange(0, i + 1) == samples@.subrange(0, i as int).push(samples@[i as int]));
            }
            i = i + 1;
        }
        proof {
            assert(samples@.subrange(0, samples@.len() as int) == samples@);
        }
    }

    /// Appends a decoded packet, interleaved. A packet whose channel count
    /// differs from the stream's is left out and `false` returned.
    pub fn push_block(&mut self, block: &PcmBlock) -> (r: bool)
        requires
            old(self).wf(),
            block.wf(),
        ensures
            final(self).wf(),
            old(self).whole_frames() ==> final(self).whole_frames(),
            r == (block.channel_count() == old(self).channels()),
            r ==> final(self).samples() == old(self).samples() + block.interleaved(),
            !r ==> final(self).samples() == old(self).samples(),
            final(self).channels() == old(self).channels(),
            final(self).block_size() == old(self).block_size(),
    {
        if block.planes.len() != self.channels {
            return false;
        }
        let samples = interleave(block);
        self.push_samples(&samples);
        proof {
            let a = old(self).seen@.len() as int;
            let ch = self.channels as int;
            let f = block.frame_count();
            if a % ch == 0 {
                vstd::arithmetic::div_mod::lemma_fundamental_div_mod(a, ch);
                assert(a + f * ch == (a / ch + f) * ch) by (nonlinear_arith)
                    requires
                        a == ch * (a / ch) + 0,
                ;
                assert(f >= 0);
                assert(a / ch >= 0) by (nonlinear_arith)
                    requires
                        a >= 0,
                        ch > 0,
                ;
                lemma_fundamental_div_mod_converse(a + f * ch, ch, a / ch + f, 0);
            }
        }
        true
    }

    /// The envelope of everything received.
    pub fn finish(self) -> (r: Vec<Peak>)
        requires
            self.wf(),
        ensures
            r@ == envelope(self.samples(), self.channels(), self.block_size()),
            self.whole_frames() ==> forall|k: int| 0 <= k < r@.len() ==> #[trigger] ordered(r@[k]),
    {
        let ghost s = self.seen@;
        let ghost b = self.block_size as int;
        let ghost n = self.peaks@.len() as int;
        let ghost ch = self.channels as int;
        let ghost f = self.filled as int;
        let mut peaks = self.peaks;
        if self.filled > 0 {
            peaks.push(self.current);
        }
        proof {
            let len = s.len() as int;
            if f == 0 {
                lemma_fundamental_div_mod_converse(len + b - 1, b, n, b - 1);
            } else {
                assert(len + b - 1 == (n + 1) * b + (f - 1)) by (nonlinear_arith)
                    requires
                        len == n * b + f,
                ;
                lemma_fundamental_div_mod_converse(len + b - 1, b, n + 1, f - 1);
            }
            let e = envelope(s, ch, b);
            assert(e.len() == peaks@.len());
            assert forall|k: int| 0 <= k < peaks@.len() implies #[trigger] peaks@[k] == e[k] by {
                if k < n {
                    assert((k + 1) * b <= n * b) by (nonlinear_arith)
                        requires
                            k < n,
                            b > 0,
                    ;
                } else {
                    assert(len < (k + 1) * b) by (nonlinear_arith)
                        requires
                            k == n,
                            len == n * b + f,
                            f < b,
                    ;
                }
            }
            assert(peaks@ =~= e);
            if len % ch == 0 {
                assert forall|k: int| 0 <= k < peaks@.len() implies #[trigger] ordered(peaks@[k]) by {
                    lemma_peak_ordered(s, ch, b, k);
                }
            }
        }
        peaks
    }
}

/// An envelope of a track whose stream holds `duration` interleaved samples
/// has `ceil(duration / block)` peaks: its blocks cover every sample, and
/// none of them lies wholly past the end.
pub proof fn lemma_envelope_length(s: Seq<i32>, ch: int, block: int, duration: int)
    requires
        block > 0,
        s.len() == duration,
    ensures
        envelope(s, ch, block).len() == block_count(duration, block),
        envelope(s, ch, block).len() * block >= duration,
        duration > 0 ==> (envelope(s, ch, block).len() - 1) * block < duration,
{
    let n = envelope(s, ch, block).len() as int;
    lemma_fundamental_div_mod(duration + block - 1, block);
    let r = (duration + block - 1) % block;
    assert(n * block >= duration) by (nonlinear_arith)
        requires
            duration + block - 1 == block * n + r,
            r < block,
    ;
    assert(duration > 0 ==> (n - 1) * block < duration) by (nonlinear_arith)
        requires
            duration + block - 1 == block * n + r,
            0 <= r,
    ;
}

/// A sample inside a span lies within the span's range for its channel.
proof fn lemma_span_covers(s: Seq<i32>, lo: int, hi: int, ch: int, i: int)
    requires
        lo <= i < hi,
    ensures
        is_left(i, ch) ==> span_peak(s, lo, hi, ch).min_left <= s[i] <= span_peak(s, lo, hi, ch).max_left,
        is_right(i, ch) ==> span_peak(s, lo, hi, ch).min_right <= s[i] <= span_peak(s, lo, hi, ch).max_right,
    decreases hi - lo,
{
    if i < hi - 1 {
        lemma_span_covers(s, lo, hi - 1, ch, i);
    }
}

/// On a stream of whole frames cut into blocks of whole frames, every block
/// holds a sample of each displayed channel, so each peak is a real range.
proof fn lemma_peak_ordered(s: Seq<i32>, ch: int, b: int, k: int)
    requires
        ch > 0,
        b > 0,
        b % ch == 0,
        s.len() as int % ch == 0,
        0 <= k < block_count(s.len() as int, b),
    ensures
        ordered(envelope(s, ch, b)[k]),
{
    let len = s.len() as int;
    lemma_envelope_length(s, ch, b, len);
    let n = block_count(len, b);
    if len == 0 {
        lemma_fundamental_div_mod_converse(b - 1, b, 0, b - 1);
    }
    assert(len > 0);
    assert(k * b < len) by (nonlinear_arith)
        requires
            0 <= k <= n - 1,
            (n - 1) * b < len,
            b > 0,
    ;
    let lo = k * b;
    let hi = vstd::math::min((k + 1) * b, len);
    assert((k + 1) * b > k * b) by (nonlinear_arith)
        requires
            b > 0,
    ;
    lemma_fundamental_div_mod(b, ch);
    lemma_fundamental_div_mod(len, ch);
    let fb = b / ch;
    let fl = len / ch;
    assert(lo == (k * fb) * ch) by (nonlinear_arith)
        requires
            lo == k * b,
            b == ch * fb + 0,
    ;
    assert(k * fb >= 0) by (nonlinear_arith)
        requires
            k >= 0,
            b == ch * fb,
            b > 0,
            ch > 0,
    ;
    lemma_fundamental_div_mod_converse(lo, ch, k * fb, 0);
    assert(hi - lo >= ch) by (nonlinear_arith)
        requires
            lo == (k * fb) * ch,
            len == ch * fl + 0,
            b == ch * fb,
            b > 0,
            ch > 0,
            lo < len,
            hi == (k + 1) * b || hi == len,
            hi > lo,
    ;
    lemma_span_covers(s, lo, hi, ch, lo);
    if ch >= 2 {
        lemma_fundamental_div_mod_converse(lo + 1, ch, k * fb, 1);
        lemma_span_covers(s, lo, hi, ch, lo + 1);
    }
}

/// A peak over positions before the end of a stream does not change when the
/// stream grows.
proof fn lemma_span_prefix(s: Seq<i32>, t: Seq<i32>, lo: int, hi: int, ch: int)
    requires
        0 <= lo,
        hi <= s.len() <= t.len(),
        forall|j: int| 0 <= j < s.len() ==> s[j] == t[j],
    ensures
        span_peak(s, lo, hi, ch) == span_peak(t, lo, hi, ch),
    decreases hi - lo,
{
    if hi > lo {
        lemma_span_prefix(s, t, lo, hi - 1, ch);
    }
}

/// Channel of the next stream position.
proof fn lemma_next_channel(i: int, ch: int)
    requires
        i >= 0,
        ch > 0,
    ensures
        (i + 1) % ch == if i % ch + 1 == ch {
            0
        } else {
            i % ch + 1
        },
{
    lemma_fundamental_div_mod(i, ch);
    let q = i / ch;
    let r = i % ch;
    if r + 1 == ch {
        assert(i + 1 == (q + 1) * ch + 0) by (nonlinear_arith)
            requires
                i == ch * q + r,
                r + 1 == ch,
        ;
        lemma_fundamental_div_mod_converse(i + 1, ch, q + 1, 0);
    } else {
        assert(i + 1 == q * ch + (r + 1)) by (nonlinear_arith)
            requires
                i == ch * q + r,
        ;
        lemma_fundamental_div_mod_converse(i + 1, ch, q, r + 1);
    }
}

} // verus!
