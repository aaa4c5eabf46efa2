use vstd::prelude::*;
use std::sync::atomic::{AtomicBool, AtomicU64, Ordering};
use std::sync::Arc;

verus! {

/// The playback position: interleaved samples consumed by the output since
/// the start of the track. Any handle may read it without blocking; what a
/// reader sees is whatever the one writer last published.
pub struct PlaybackClock {
    counter: Arc<AtomicU64>,
}

/// The one handle that moves the clock: the transport's while no sink runs,
/// then the sink's. It keeps the value it last published.
pub struct ClockWriter {
    counter: Arc<AtomicU64>,
    value: u64,
}

impl PlaybackClock {
    /// A clock at position zero.
    pub fn new() -> (r: PlaybackClock) {
        PlaybackClock { counter: Arc::new(AtomicU64::new(0)) }
    }

    /// Another reading handle on the same counter.
    pub fn share(&self) -> (r: PlaybackClock) {
        PlaybackClock { counter: self.counter.clone() }
    }

    /// The position as last published by the writer.
    pub fn get(&self) -> u64 {
        self.counter.load(Ordering::Relaxed)
    }

    /// Publishes `value` and hands out the writer that continues from it;
    /// taken only once the previous writer is gone.
    pub fn writer(&self, value: u64) -> (w: ClockWriter)
        ensures
            w.value() == value,
    {
        self.counter.store(value, Ordering::Relaxed);
        ClockWriter { counter: self.counter.clone(), value }
    }
}

impl ClockWriter {
    /// The position this writer last published.
    pub closed spec fn value(&self) -> u64 {
        self.value
    }

    pub fn get(&self) -> (r: u64)
        ensures
            r == self.value(),
    {
        self.value
    }

    /// Moves the position to `value`.
    pub fn set(&mut self, value: u64)
        ensures
            final(self).value() == value,
    {
        self.value = value;
        self.counter.store(value, Ordering::Relaxed);
    }

    /// Adds samples that were actually played; the count saturates.
    pub fn advance(&mut self, played: u64)
        ensures
            final(self).value() == vstd::math::min(old(self).value() + played, u64::MAX as int),
    {
        self.value = self.value.saturating_add(played);
        self.counter.store(self.value, Ordering::Relaxed);
    }
}

/// A boolean shared between the controlling thread and the decode worker
/// ("is playing", "is done", "has failed"), read and written without locks.
/// Each handle keeps what it last wrote.
pub struct SharedFlag {
    flag: Arc<AtomicBool>,
    written: bool,
}

impl SharedFlag {
    pub fn new(value: bool) -> (r: SharedFlag)
        ensures
            r.written() == value,
    {
        SharedFlag { flag: Arc::new(AtomicBool::new(value)), written: value }
    }

    /// The value this handle last stored.
    pub closed spec fn written(&self) -> bool {
        self.written
    }

    /// Another handle on the same flag.
    pub fn share(&self) -> (r: SharedFlag)
        ensures
            r.written() == self.written(),
    {
        SharedFlag { flag: self.flag.clone(), written: self.written }
    }

    /// The value as last stored through any handle.
    pub fn get(&self) -> bool {
        self.flag.load(Ordering::Relaxed)
    }

    pub fn set(&mut self, value: bool)
        ensures
            final(self).written() == value,
    {
        self.written = value;
        self.flag.store(value, Ordering::Relaxed);
    }
}

} // verus!
