//! Fixed configuration constants of the sonification pipeline.
//!
//! Every tunable of the pipeline is a compile-time constant: the sampling
//! grid size, the tuning base, the note count, the output format and the
//! silence threshold.

use vstd::prelude::*;

verus! {

/// Width of the fixed luminance-sampling grid, in cells.
pub const GRID_WIDTH: u32 = 20;

/// Height of the fixed luminance-sampling grid, in cells.
pub const GRID_HEIGHT: u32 = 20;

/// Number of equal-tempered semitones spanned by the pitch ladder:
/// five octaves of twelve notes each.
pub const NOTE_QUANTITY: u32 = 60;

/// Tuning base in hundredths of a hertz: 32.70 Hz, the pitch class C1.
/// A voice with note index `n` sounds at `32.70 * 2^(n/12)` Hz.
pub const BASE_FREQ_CENTIHZ: u32 = 3270;

/// Output sample rate in frames per second.
pub const SAMPLE_RATE: u32 = 44100;

/// Output duration in whole seconds.
pub const DURATION_SECONDS: u32 = 10;

/// Number of frames per channel in the rendered waveform.
pub const FRAMES_PER_CHANNEL: u32 = SAMPLE_RATE * DURATION_SECONDS;

/// Highest luminance that the silence gate discards.  A sample is audible
/// exactly when its normalized luminance `luminance / 255` reaches the
/// threshold `1 / 10`, that is, when `luminance > SILENCE_CUTOFF`.
pub const SILENCE_CUTOFF: u8 = 25;

/// The frame count works out to ten seconds of audio at 44100 Hz.
pub proof fn lemma_frame_count()
    ensures
        FRAMES_PER_CHANNEL == 441000,
{
}

} // verus!
