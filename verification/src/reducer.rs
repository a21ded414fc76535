//! The level reducer: the per-tick state transition of the meter.
//!
//! Each UI tick feeds the latest raw sample magnitude through [`MeterState::update`],
//! which smooths the position toward the input, ratchets the peak up when the
//! position passes it, and otherwise holds the peak for a fixed number of
//! ticks before letting it decay.

use crate::level::{smoothed, smoothed_iter, SCALE};
use vstd::prelude::*;

verus! {

/// Number of ticks a fresh peak is held before it starts to decay.
pub const HOLD_TICKS_DEFAULT: u32 = 50;

/// The state of one meter instance, owned by the consumer-side tick loop.
///
/// All level-valued fields are fixed-point fractions of [`SCALE`].
#[derive(Clone, Copy, Debug, PartialEq, Eq, Structural)]
pub struct MeterState {
    /// Current smoothed level.
    pub position: u32,
    /// Current peak-hold level.
    pub peak: u32,
    /// Remaining ticks before the peak starts decaying.
    pub peak_hold_ticks: u32,
    /// Amount the peak decreases per tick once the hold has expired.
    pub peak_decay_rate: u32,
    /// Exponential smoothing coefficient: 0 freezes the position, `SCALE`
    /// tracks the input instantly.
    pub smoothing_factor: u32,
}

impl MeterState {
    /// Well-formedness: the smoothing factor is a fraction, at most 1.0.
    pub open spec fn wf(self) -> bool {
        self.smoothing_factor <= SCALE
    }

    /// The smoothed position this state computes for the input `raw`.
    pub open spec fn next_position(self, raw: u32) -> int {
        smoothed(self.position as int, raw as int, self.smoothing_factor as int)
    }

    /// The complete transition one tick performs: smooth the position, then
    /// either ratchet the peak up with a fresh hold, keep decrementing the
    /// hold, or decay the peak toward zero once the hold has expired.
    pub open spec fn stepped(self, raw: u32) -> MeterState {
        let pos = self.next_position(raw);
        if pos > self.peak {
            MeterState {
                position: pos as u32,
                peak: pos as u32,
                peak_hold_ticks: HOLD_TICKS_DEFAULT,
                peak_decay_rate: self.peak_decay_rate,
                smoothing_factor: self.smoothing_factor,
            }
        } else if self.peak_hold_ticks == 0 {
            MeterState {
                position: pos as u32,
                peak: if self.peak >= self.peak_decay_rate {
                    (self.peak - self.peak_decay_rate) as u32
                } else {
                    0
                },
                peak_hold_ticks: 0,
                peak_decay_rate: self.peak_decay_rate,
                smoothing_factor: self.smoothing_factor,
            }
        } else {
            MeterState {
                position: pos as u32,
                peak: self.peak,
                peak_hold_ticks: (self.peak_hold_ticks - 1) as u32,
                peak_decay_rate: self.peak_decay_rate,
                smoothing_factor: self.smoothing_factor,
            }
        }
    }

    /// Builds the initial state of a meter: levels at zero, no hold pending.
    pub fn create(smoothing_factor: u32, peak_decay_rate: u32) -> (s: MeterState)
        requires
            smoothing_factor <= SCALE,
        ensures
            s == (MeterState {
                position: 0,
                peak: 0,
                peak_hold_ticks: 0,
                peak_decay_rate,
                smoothing_factor,
            }),
            s.wf(),
    {
        MeterState {
            position: 0,
            peak: 0,
            peak_hold_ticks: 0,
            peak_decay_rate,
            smoothing_factor,
        }
    }

    /// One tick of the reducer: consumes the latest raw sample magnitude and
    /// moves the state exactly as [`MeterState::stepped`] describes.
    pub fn update(&mut self, raw: u32)
        requires
            old(self).wf(),
        ensures
            *final(self) == old(self).stepped(raw),
            final(self).wf(),
    {
        let position = crate::level::smooth_toward(self.position, raw, self.smoothing_factor);
        self.position = position;
        if position > self.peak {
            self.peak = position;
            self.peak_hold_ticks = HOLD_TICKS_DEFAULT;
        } else if self.peak_hold_ticks == 0 {
            if self.peak >= self.peak_decay_rate {
                self.peak = self.peak - self.peak_decay_rate;
            } else {
                self.peak = 0;
            }
        } else {
            self.peak_hold_ticks = self.peak_hold_ticks - 1;
        }
    }

    /// Replaces the smoothing coefficient; every other field is untouched.
    pub fn set_smoothing_factor(&mut self, factor: u32)
        requires
            factor <= SCALE,
        ensures
            *final(self) == (MeterState { smoothing_factor: factor, ..*old(self) }),
            final(self).wf(),
    {
        self.smoothing_factor = factor;
    }

    /// Replaces the peak decay rate; every other field is untouched.
    pub fn set_peak_decay_rate(&mut self, rate: u32)
        requires
            old(self).wf(),
        ensures
            *final(self) == (MeterState { peak_decay_rate: rate, ..*old(self) }),
            final(self).wf(),
    {
        self.peak_decay_rate = rate;
    }
}

/// [`MeterState::stepped`] iterated `n` times with a constant input `raw`.
pub open spec fn run_constant(s: MeterState, raw: u32, n: nat) -> MeterState
    decreases n,
{
    if n == 0 {
        s
    } else {
        run_constant(s, raw, (n - 1) as nat).stepped(raw)
    }
}

/// Law: peak ratchet.  On any tick whose smoothed position exceeds the
/// current peak, the peak tracks that position exactly and the hold counter
/// is reset to `HOLD_TICKS_DEFAULT`.
pub proof fn lemma_peak_ratchet(s: MeterState, raw: u32)
    requires
        s.wf(),
        s.next_position(raw) > s.peak,
    ensures
        s.stepped(raw).peak == s.next_position(raw),
        s.stepped(raw).peak_hold_ticks == HOLD_TICKS_DEFAULT,
{
    crate::level::lemma_smoothing_between(s.position as int, raw as int, s.smoothing_factor as int);
}

/// Law: peak hold.  While hold ticks remain and the position does not set a
/// new peak, the peak is unchanged and the hold counter decreases by exactly
/// one per tick.
pub proof fn lemma_peak_hold(s: MeterState, raw: u32)
    requires
        s.wf(),
        s.next_position(raw) <= s.peak,
        s.peak_hold_ticks > 0,
    ensures
        s.stepped(raw).peak == s.peak,
        s.stepped(raw).peak_hold_ticks == s.peak_hold_ticks - 1,
{
}

/// Law: peak decay.  Once the hold has expired and the position does not set
/// a new peak, the peak decreases by exactly `peak_decay_rate` per tick,
/// floored at zero, and so never moves upward.
pub proof fn lemma_peak_decay(s: MeterState, raw: u32)
    requires
        s.wf(),
        s.next_position(raw) <= s.peak,
        s.peak_hold_ticks == 0,
    ensures
        s.stepped(raw).peak == if s.peak >= s.peak_decay_rate {
            (s.peak - s.peak_decay_rate) as u32
        } else {
            0
        },
        s.stepped(raw).peak <= s.peak,
        s.stepped(raw).peak_hold_ticks == 0,
{
}

/// Law: the hold counts down one per tick.  As long as the input stays at or
/// below the peak (so no new peak can be set), `n` ticks of constant input
/// leave the peak untouched, take exactly `n` off the hold counter, and move
/// the position through the smoothing iterates.
pub proof fn lemma_peak_hold_countdown(s: MeterState, raw: u32, n: nat)
    requires
        s.wf(),
        s.position <= s.peak,
        raw <= s.peak,
        n <= s.peak_hold_ticks,
    ensures
        run_constant(s, raw, n).peak == s.peak,
        run_constant(s, raw, n).peak_hold_ticks == s.peak_hold_ticks - n,
        run_constant(s, raw, n).position <= s.peak,
        run_constant(s, raw, n).position as int == smoothed_iter(
            s.position as int,
            raw as int,
            s.smoothing_factor as int,
            n,
        ),
        run_constant(s, raw, n).peak_decay_rate == s.peak_decay_rate,
        run_constant(s, raw, n).smoothing_factor == s.smoothing_factor,
    decreases n,
{
    if n > 0 {
        lemma_peak_hold_countdown(s, raw, (n - 1) as nat);
        let prev = run_constant(s, raw, (n - 1) as nat);
        crate::level::lemma_smoothing_between(
            prev.position as int,
            raw as int,
            s.smoothing_factor as int,
        );
    }
}

} // verus!
