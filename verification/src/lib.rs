//! A signal-to-visual-state core for an audio level meter widget.
//!
//! The crate turns a stream of raw sample magnitudes into the state a meter
//! widget paints: a smoothed `position`, a slow-decaying `peak` indicator,
//! and the filled shapes that show both inside a layout box.
//!
//! Levels are fixed-point fractions: the value `SCALE` stands for 1.0, so a
//! level of half scale is one half.  Fixed point keeps every step of the
//! arithmetic exact and lets each operation carry a full contract.
//!
//! The pieces, in the order data flows through them:
//! - [`shared::SharedSample`]: the single-slot handoff cell the audio-rate
//!   producer writes and the UI-rate consumer reads.
//! - [`reducer::MeterState`]: the per-tick reduction from a raw magnitude to
//!   the `(position, peak)` pair.
//! - [`geometry::GeometryMapper`]: the pure mapping from `(position, peak)`,
//!   an orientation and a bounding box to a list of fill shapes.

pub mod geometry;
pub mod level;
pub mod reducer;
pub mod shared;
