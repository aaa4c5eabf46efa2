use vstd::prelude::*;
use vstd::arithmetic::div_mod::lemma_fundamental_div_mod_converse;
use crate::lemma_mul_u128;

verus! {

/// Encodings of integer PCM that a decoded packet may carry.
///
/// Each is mapped to one canonical fixed-point form: a signed 32-bit sample
/// whose full scale `2^31` stands for amplitude 1.0.
#[derive(Debug, Clone, Copy, PartialEq, Eq, Structural)]
pub enum SampleFormat {
    U8,
    U16,
    U24,
    U32,
    S8,
    S16,
    S24,
    S32,
}

pub open spec fn clamp_i32(v: int) -> int {
    if v < i32::MIN {
        i32::MIN as int
    } else if v > i32::MAX {
        i32::MAX as int
    } else {
        v
    }
}

/// A raw sample of `format` in canonical fixed point: unsigned encodings are
/// re-centred on their midpoint, then every encoding is scaled up to 32 bits.
/// Values outside the encoding's range saturate.
pub open spec fn normalized(format: SampleFormat, raw: int) -> int {
    clamp_i32(
        match format {
            SampleFormat::U8 => (raw - 0x80) * 0x100_0000,
            SampleFormat::U16 => (raw - 0x8000) * 0x1_0000,
            SampleFormat::U24 => (raw - 0x80_0000) * 0x100,
            SampleFormat::U32 => raw - 0x8000_0000,
            SampleFormat::S8 => raw * 0x100_0000,
            SampleFormat::S16 => raw * 0x1_0000,
            SampleFormat::S24 => raw * 0x100,
            SampleFormat::S32 => raw,
        },
    )
}

/// Converts one raw sample to canonical fixed point.
pub fn normalize(format: SampleFormat, raw: i64) -> (r: i32)
    ensures
        r == normalized(format, raw as int),
{
    let v: i128 = raw as i128;
    let scaled: i128 = match format {
        SampleFormat::U8 => (v - 0x80) * 0x100_0000,
        SampleFormat::U16 => (v - 0x8000) * 0x1_0000,
        SampleFormat::U24 => (v - 0x80_0000) * 0x100,
        SampleFormat::U32 => v - 0x8000_0000,
        SampleFormat::S8 => v * 0x100_0000,
        SampleFormat::S16 => v * 0x1_0000,
        SampleFormat::S24 => v * 0x100,
        SampleFormat::S32 => v,
    };
    if scaled < i32::MIN as i128 {
        i32::MIN
    } else if scaled > i32::MAX as i128 {
        i32::MAX
    } else {
        scaled as i32
    }
}

/// One decoded packet: a plane of raw samples per channel, all planes the
/// same length.
#[derive(Debug, Clone)]
pub struct PcmBlock {
    pub format: SampleFormat,
    pub planes: Vec<Vec<i64>>,
}

impl PcmBlock {
    pub open spec fn channel_count(self) -> int {
        self.planes@.len() as int
    }

    pub open spec fn frame_count(self) -> int {
        self.planes@[0]@.len() as int
    }

    pub open spec fn wf(self) -> bool {
        &&& self.planes@.len() > 0
        &&& forall|c: int|
            0 <= c < self.planes@.len() ==> #[trigger] self.planes@[c]@.len() == self.frame_count()
        &&& self.frame_count() * self.channel_count() <= usize::MAX
    }

    /// Sample `i` of the interleaved stream: frame `i / channels`, channel
    /// `i % channels`, normalized.
    pub open spec fn interleaved(self) -> Seq<i32> {
        Seq::new(
            (self.frame_count() * self.channel_count()) as nat,
            |i: int|
                normalized(
                    self.format,
                    self.planes@[i % self.channel_count()]@[i / self.channel_count()] as int,
                ) as i32,
        )
    }

    /// A block from per-channel planes; `None` unless there is at least one
    /// plane, all planes have the same length, and the interleaved stream's
    /// length fits in `usize`.
    pub fn new(format: SampleFormat, planes: Vec<Vec<i64>>) -> (r: Option<PcmBlock>)
        ensures
            r matches Some(b) ==> b.wf() && b.format == format && b.planes@ == planes@,
            r is None <==> (planes@.len() == 0 || (exists|c: int|
                0 <= c < planes@.len() && #[trigger] planes@[c]@.len() != planes@[0]@.len())
                || planes@[0]@.len() * planes@.len() > usize::MAX),
    {
        if planes.len() == 0 {
            return None;
        }
        let frames = planes[0].len();
        let mut c: usize = 0;
        while c < planes.len()
            invariant
                0 < planes@.len(),
                frames == planes@[0]@.len(),
                c <= planes@.len(),
                forall|k: int| 0 <= k < c ==> #[trigger] planes@[k]@.len() == frames,
            decreases planes@.len() - c,
        {
            if planes[c].len() != frames {
                assert(planes@[c as int]@.len() != planes@[0]@.len());
                return None;
            }
            c = c + 1;
        }
        proof {
            lemma_mul_u128(frames as int, planes@.len() as int, usize::MAX as int, usize::MAX as int);
        }
        let total: u128 = frames as u128 * planes.len() as u128;
        if total > usize::MAX as u128 {
            return None;
        }
        Some(PcmBlock { format, planes })
    }
}

/// Interleaves a decoded packet into canonical samples, frame by frame.
pub fn interleave(block: &PcmBlock) -> (r: Vec<i32>)
    requires
        block.wf(),
    ensures
        r@ == block.interleaved(),
{
    let ch = block.planes.len();
    let frames = block.planes[0].len();
    let ghost target = block.interleaved();
    let mut out: Vec<i32> = Vec::new();
    let mut f: usize = 0;
    while f < frames
        invariant
            block.wf(),
            ch == block.channel_count(),
            frames == block.frame_count(),
            target == block.interleaved(),
            f <= frames,
            out@.len() == f * ch,
            forall|j: int| 0 <= j < out@.len() ==> #[trigger] out@[j] == target[j],
        decreases frames - f,
    {
        let mut c: usize = 0;
        while c < ch
            invariant
                block.wf(),
                ch == block.channel_count(),
                frames == block.frame_count(),
                target == block.interleaved(),
                f < frames,
                c <= ch,
                out@.len() == f * ch + c,
                forall|j: int| 0 <= j < out@.len() ==> #[trigger] out@[j] == target[j],
            decreases ch - c,
        {
            let ghost j = f * ch + c;
            proof {
                assert(j < frames * ch) by (nonlinear_arith)
                    requires
                        j == f * ch + c,
                        f < frames,
                        c < ch,
                ;
                lemma_fundamental_div_mod_converse(j, ch as int, f as int, c as int);
                assert(block.planes@[c as int]@.len() == frames);
            }
            let v = normalize(block.format, block.planes[c][f]);
            out.push(v);
            c = c + 1;
        }
        proof {
            assert(out@.len() == (f + 1) * ch) by (nonlinear_arith)
                requires
                    out@.len() == f * ch + ch,
            ;
        }
        f = f + 1;
    }
    proof {
        assert(out@ =~= target);
    }
    out
}

} // verus!
