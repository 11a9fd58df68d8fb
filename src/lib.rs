//! Audio-reactive analysis core: a rolling RMS loudness estimator over a
//! multichannel capture stream, a per-channel onset latch, and the per-tick
//! capability context handed to a visual mode.
use vstd::prelude::*;

pub mod ring;
pub mod rms;
pub mod onset;
pub mod analysis;
pub mod canvas;
pub mod modes;
pub mod transport;
pub mod render;

verus! {

/// Number of input channels carried by every sample frame.
pub const CHANNELS: usize = 16;

/// Number of sample frames in the loudness window.
pub const WINDOW_LEN: usize = 128;

/// The sample value that stands for amplitude 1.0 (samples are 16-bit
/// fixed point, so a sample `s` is the amplitude `s / FULL_SCALE`).
pub const FULL_SCALE: u64 = 32768;

/// One hardware frame: one 16-bit fixed-point sample per input channel.
pub type SampleFrame = [i16; 16];

} // verus!
