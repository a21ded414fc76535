//! The single-slot handoff cell between the audio-rate producer and the
//! UI-rate consumer.
//!
//! The producer overwrites the slot with the latest raw sample magnitude on
//! every callback; the consumer reads whatever is current at tick time.
//! Intermediate writes are dropped on purpose: the meter is a sampled view
//! of a continuous quantity, not an event log.  Both operations are single
//! wait-free atomic accesses, so neither side ever blocks the other, and a
//! read always returns some value that was actually written (an atomic
//! scalar cannot tear).
//!
//! vstd specifies the atomic operations used here but deliberately says
//! nothing about the values they move, since another thread may write the
//! slot at any moment; the value-level reasoning happens in the consumer,
//! whose reducer is verified for every value a read could hand it.

use core::sync::atomic::AtomicU32;
use core::sync::atomic::Ordering;
use vstd::prelude::*;

verus! {

/// A single-producer, single-consumer slot holding the latest raw sample
/// magnitude as a fixed-point level.
pub struct SharedSample {
    cell: AtomicU32,
}

impl SharedSample {
    /// Creates the slot, holding `initial` until the first store.
    pub fn new(initial: u32) -> SharedSample {
        SharedSample { cell: AtomicU32::new(initial) }
    }

    /// The producer side: overwrites the slot with the latest raw sample
    /// magnitude.  Wait-free; last write wins.
    pub fn store(&self, raw: u32) {
        self.cell.store(raw, Ordering::Relaxed);
    }

    /// The consumer side: reads the most recent value stored.  Wait-free;
    /// re-reads the same value when no store happened since the last tick.
    pub fn load(&self) -> u32 {
        self.cell.load(Ordering::Relaxed)
    }
}

} // verus!
