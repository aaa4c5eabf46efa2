use vstd::prelude::*;

verus! {

/// One range of stream configurations an output device offers.
#[derive(Debug, Clone, Copy, PartialEq, Eq, Structural)]
pub struct ConfigRange {
    /// Samples are 32-bit floats.
    pub float_samples: bool,
    pub min_rate: u32,
    pub max_rate: u32,
    pub channels: u16,
}

/// The range can play a track of `rate` and `channels` as it is.
pub open spec fn fits(c: ConfigRange, rate: u32, channels: u16) -> bool {
    c.float_samples && c.min_rate <= rate <= c.max_rate && c.channels == channels
}

/// The first range that plays the track as it is, if any; otherwise the
/// caller falls back to the device's default configuration.
pub fn choose_config(ranges: &Vec<ConfigRange>, rate: u32, channels: u16) -> (r: Option<usize>)
    ensures
        r matches Some(i) ==> i < ranges@.len() && fits(ranges@[i as int], rate, channels)
            && forall|j: int| 0 <= j < i ==> !fits(#[trigger] ranges@[j], rate, channels),
        r is None ==> forall|j: int| 0 <= j < ranges@.len() ==> !fits(#[trigger] ranges@[j], rate, channels),
{
    let mut i: usize = 0;
    while i < ranges.len()
        invariant
            i <= ranges@.len(),
            forall|j: int| 0 <= j < i ==> !fits(#[trigger] ranges@[j], rate, channels),
        decreases ranges@.len() - i,
    {
        let c = ranges[i];
        if c.float_samples && c.min_rate <= rate && rate <= c.max_rate && c.channels == channels {
            return Some(i);
        }
        i = i + 1;
    }
    None
}

} // verus!
