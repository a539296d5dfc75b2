//! The sonification engine: per-cell mapping and voice collection.
//!
//! Every audible grid cell maps independently to one [`Voice`]; gated
//! cells contribute nothing at all.  The resulting voice list is what the
//! synthesis layer sums into the stereo bus, so the whole audible content
//! of the output is pinned down by `voices_of`.

use vstd::prelude::*;
use crate::config::{GRID_HEIGHT, GRID_WIDTH, NOTE_QUANTITY, SILENCE_CUTOFF};
use crate::sample::LuminanceSample;
use crate::voice::{audible, note_index_of, pan_numer_of, voice_of, Voice};

verus! {

/// The voices of a sample sequence, in order: one voice per audible cell,
/// nothing for a gated cell.
pub open spec fn voices_of(samples: Seq<LuminanceSample>) -> Seq<Voice>
    decreases samples.len(),
{
    if samples.len() == 0 {
        Seq::empty()
    } else {
        let rest = voices_of(samples.drop_last());
        if audible(samples.last().luminance) {
            rest.push(voice_of(samples.last()))
        } else {
            rest
        }
    }
}

/// How many cells of a sample sequence pass the silence gate.
pub open spec fn audible_count(samples: Seq<LuminanceSample>) -> nat
    decreases samples.len(),
{
    if samples.len() == 0 {
        0
    } else {
        audible_count(samples.drop_last()) + if audible(samples.last().luminance) {
            1nat
        } else {
            0nat
        }
    }
}

/// Maps one grid cell to its voice, or to nothing if the silence gate
/// discards it.
pub fn voice_for_sample(s: &LuminanceSample) -> (r: Option<Voice>)
    requires
        s.wf(),
    ensures
        r is Some <==> audible(s.luminance),
        audible(s.luminance) ==> r == Some(voice_of(*s)),
{
    if s.luminance > SILENCE_CUTOFF {
        let note_index: u32 = (GRID_HEIGHT - s.y) * NOTE_QUANTITY / GRID_HEIGHT;
        let pan_numer: i32 = 2 * (s.x as i32) - (GRID_WIDTH as i32);
        Some(Voice { note_index, level: s.luminance, pan_numer, pan_denom: GRID_WIDTH })
    } else {
        None
    }
}

/// Maps a whole sample sequence to its voices, keeping the order of the
/// audible cells.
pub fn voices_for_samples(samples: &Vec<LuminanceSample>) -> (r: Vec<Voice>)
    requires
        forall|i: int| 0 <= i < samples@.len() ==> samples@[i].wf(),
    ensures
        r@ == voices_of(samples@),
{
    let mut out: Vec<Voice> = Vec::new();
    let mut i: usize = 0;
    while i < samples.len()
        invariant
            i <= samples@.len(),
            forall|j: int| 0 <= j < samples@.len() ==> samples@[j].wf(),
            out@ == voices_of(samples@.take(i as int)),
        decreases samples@.len() - i,
    {
        match voice_for_sample(&samples[i]) {
            Some(v) => out.push(v),
            None => (),
        }
        proof {
            let taken = samples@.take(i + 1);
            assert(taken.drop_last() =~= samples@.take(i as int));
            assert(taken.last() == samples@[i as int]);
        }
        i = i + 1;
    }
    proof {
        assert(samples@.take(samples@.len() as int) =~= samples@);
    }
    out
}

/// The mix invariant: exactly the cells that pass the silence gate
/// contribute a voice, so the number of voices mixed into the stereo bus
/// equals the number of audible cells.
pub proof fn lemma_voice_count(samples: Seq<LuminanceSample>)
    ensures
        voices_of(samples).len() == audible_count(samples),
    decreases samples.len(),
{
    if samples.len() > 0 {
        lemma_voice_count(samples.drop_last());
    }
}

/// The silence gate: a cell at or below the cutoff contributes nothing,
/// and a fully bright cell contributes a full-amplitude voice.
pub proof fn lemma_silence_gate(s: LuminanceSample)
    ensures
        s.luminance <= SILENCE_CUTOFF ==> !audible(s.luminance),
        s.luminance == 255 ==> audible(s.luminance) && voice_of(s).level == 255,
{
}

/// The pitch mapping law: the top row maps to the full note count, the
/// bottom row to a low note near the tuning base, and the note index is
/// strictly antitone in the row, so visually higher cells always sound
/// strictly higher.
pub proof fn lemma_pitch_mapping()
    ensures
        note_index_of(0) == NOTE_QUANTITY,
        note_index_of((GRID_HEIGHT - 1) as u32) == 3,
        forall|y1: u32, y2: u32|
            y1 < y2 < GRID_HEIGHT ==> note_index_of(y1) > note_index_of(y2),
{
    assert forall|y: u32| y < GRID_HEIGHT implies note_index_of(y) == 3 * (GRID_HEIGHT
        - y) by {
        let k = GRID_HEIGHT - y;
        assert((k * NOTE_QUANTITY) / (GRID_HEIGHT as int) == 3 * k) by (nonlinear_arith)
            requires
                1 <= k <= 20,
                NOTE_QUANTITY == 60,
                GRID_HEIGHT == 20,
        ;
    }
}

/// The pan law boundaries: the leftmost column pans hard left, the
/// rightmost column pans to nine tenths right, and every column stays
/// inside the stereo field without ever reaching hard right.
pub proof fn lemma_pan_bounds()
    ensures
        pan_numer_of(0) == -(GRID_WIDTH as int),
        10 * pan_numer_of((GRID_WIDTH - 1) as u32) == 9 * (GRID_WIDTH as int),
        forall|x: u32|
            x < GRID_WIDTH ==> -(GRID_WIDTH as int) <= #[trigger] pan_numer_of(x)
                < GRID_WIDTH,
{
}

/// The silence invariant: an all-black sample set produces no voices at
/// all, so the stereo bus stays pure digital silence.
pub proof fn lemma_silence(samples: Seq<LuminanceSample>)
    requires
        forall|i: int| 0 <= i < samples.len() ==> samples[i].luminance == 0,
    ensures
        voices_of(samples) == Seq::<Voice>::empty(),
    decreases samples.len(),
{
    if samples.len() > 0 {
        lemma_silence(samples.drop_last());
    }
    assert(voices_of(samples) =~= Seq::<Voice>::empty());
}

/// The full-brightness law: when every cell is fully bright, no cell is
/// discarded, and every cell contributes a voice at full amplitude, in
/// order.
pub proof fn lemma_full_brightness(samples: Seq<LuminanceSample>)
    requires
        forall|i: int| 0 <= i < samples.len() ==> samples[i].luminance == 255,
    ensures
        voices_of(samples).len() == samples.len(),
        forall|i: int|
            0 <= i < samples.len() ==> voices_of(samples)[i] == voice_of(samples[i]),
    decreases samples.len(),
{
    if samples.len() > 0 {
        lemma_full_brightness(samples.drop_last());
    }
}

} // verus!
