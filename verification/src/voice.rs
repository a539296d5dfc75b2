//! One panned sine tone, and the mapping that derives it from a grid cell.
//!
//! A voice is described entirely by integers so that every field is an
//! exact value: the pitch as a semitone count, the amplitude as a value
//! out of 255, and the stereo position as an exact rational.  The synthesis
//! layer turns these into oscillator parameters: a voice with note index
//! `n` sounds at `(BASE_FREQ_CENTIHZ / 100) * 2^(n / 12)` hertz, at
//! amplitude `level / 255`, panned to `pan_numer / pan_denom`.

use vstd::prelude::*;
use crate::config::{GRID_HEIGHT, GRID_WIDTH, NOTE_QUANTITY, SILENCE_CUTOFF};
use crate::sample::LuminanceSample;

verus! {

/// One synthesized, panned sine tone contributed by a single audible cell.
#[derive(Clone, Copy, Debug, PartialEq, Eq, Structural)]
pub struct Voice {
    /// Equal-tempered semitone steps above the tuning base; between 0 and
    /// `NOTE_QUANTITY`.
    pub note_index: u32,
    /// Amplitude numerator: the voice's amplitude is `level / 255`, so a
    /// fully bright cell gives a full-amplitude voice.
    pub level: u8,
    /// Stereo position numerator: the pan value is `pan_numer / pan_denom`,
    /// with -1 hard left and +1 hard right.
    pub pan_numer: i32,
    /// Stereo position denominator; always the grid width.
    pub pan_denom: u32,
}

/// The silence gate: a cell is audible exactly when its normalized
/// luminance `luminance / 255` reaches the threshold `1 / 10`, that is,
/// when `10 * luminance >= 255`.  As whole numbers: `luminance > 25`.
pub open spec fn audible(luminance: u8) -> bool {
    luminance > SILENCE_CUTOFF
}

/// The pitch ladder: the row is inverted so that visually higher cells
/// (smaller `y`) sound higher, and the fraction of the grid height is
/// scaled to the note count and truncated to a whole semitone.  The
/// truncation is intentional: it produces a stepwise pitch ladder.
pub open spec fn note_index_of(y: u32) -> int {
    (GRID_HEIGHT - y) * NOTE_QUANTITY / (GRID_HEIGHT as int)
}

/// The stereo placement `(x / GRID_WIDTH) * 2 - 1` as the numerator of an
/// exact rational over `GRID_WIDTH`: the leftmost column maps to -1 (hard
/// left) and the rightmost to `(GRID_WIDTH - 2) / GRID_WIDTH` (near right;
/// `x` never reaches the grid width, so the pan never reaches +1).
pub open spec fn pan_numer_of(x: u32) -> int {
    2 * x - GRID_WIDTH
}

/// The voice an audible cell maps to: pitch from the row, amplitude from
/// the luminance, stereo position from the column.
pub open spec fn voice_of(s: LuminanceSample) -> Voice {
    Voice {
        note_index: note_index_of(s.y) as u32,
        level: s.luminance,
        pan_numer: pan_numer_of(s.x) as i32,
        pan_denom: GRID_WIDTH,
    }
}

} // verus!
