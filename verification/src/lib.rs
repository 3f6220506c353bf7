//! A sixteen-step drum sequencer: tempo arithmetic, an edge-triggered step
//! clock, pattern lookup and the transport that starts and stops playback.

pub mod clock;
pub mod dispatch;
pub mod display;
pub mod error;
pub mod laws;
pub mod layout;
pub mod pattern;
pub mod tempo;
pub mod transport;
