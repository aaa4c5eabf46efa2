//! Decode-to-playback core of a waveform audio player: track descriptors,
//! sample normalization, amplitude envelopes, the bounded sample queue, the
//! output sink, the shared playback clock and the transport state machine.
use vstd::prelude::*;

pub mod clock;
pub mod device;
pub mod envelope;
pub mod error;
pub mod pcm;
pub mod queue;
pub mod sink;
pub mod track;
pub mod transport;
pub mod worker;

verus! {

/// Products of bounded factors stay within the bound's product.
pub(crate) proof fn lemma_mul_u128(a: int, b: int, ma: int, mb: int)
    requires
        0 <= a <= ma,
        0 <= b <= mb,
    ensures
        0 <= a * b <= ma * mb,
{
    assert(0 <= a * b <= ma * mb) by (nonlinear_arith)
        requires
            0 <= a <= ma,
            0 <= b <= mb,
    ;
}

} // verus!
