//! A short melody on the open strings of the guitar.

use vstd::prelude::*;
use crate::duration::NoteDuration;
use crate::guitar::{
    resolve_all, standard_tuning, Guitar, GuitarNote, GuitarNotePitch, GuitarString,
};
use crate::note::Note;
use crate::player::{cues_of, Cue, Player};

verus! {

/// The tempo of the melody in beats per minute.
pub const TEMPO: u32 = 120;

/// An open string held for a quarter note.
pub open spec fn open_quarter(s: GuitarString) -> GuitarNote {
    GuitarNote {
        pitch: GuitarNotePitch { base: s.open_pitch(), position: 0 },
        duration: NoteDuration::Quarter,
    }
}

/// One round of the melody: eight quarter notes on open strings.
pub open spec fn round() -> Seq<GuitarNote> {
    seq![
        open_quarter(GuitarString::S5),
        open_quarter(GuitarString::S3),
        open_quarter(GuitarString::S2),
        open_quarter(GuitarString::S3),
        open_quarter(GuitarString::S1),
        open_quarter(GuitarString::S3),
        open_quarter(GuitarString::S2),
        open_quarter(GuitarString::S3),
    ]
}

/// The melody: the round, twice.
pub open spec fn tablature() -> Seq<GuitarNote> {
    round() + round()
}

/// The notes of the melody, each moved by `half_tone` half tones.
pub open spec fn song(half_tone: int) -> Seq<Note> {
    Seq::new(
        tablature().len(),
        |k: int|
            Note {
                pitch: tablature()[k].resolved().pitch.transposed(half_tone),
                duration: tablature()[k].duration,
            },
    )
}

/// Lays out the performance of the melody, moved by `i` half tones, at 120
/// beats per minute. The melody spans from the A of the second octave to the
/// E of the fourth, and all of it must stay in range.
pub fn play(i: i32) -> (cues: Vec<Cue>)
    requires
        -21 <= i <= 55,
    ensures
        cues@ == cues_of(song(i as int), 2_000_000_000),
{
    let mut guitar = Guitar::new();
    let mut rounds: usize = 0;
    while rounds < 2
        invariant
            rounds <= 2,
            guitar@.tuning == standard_tuning(),
            rounds == 0 ==> guitar@.notes == Seq::<GuitarNote>::empty(),
            rounds == 1 ==> guitar@.notes == round(),
            rounds == 2 ==> guitar@.notes == tablature(),
        decreases 2 - rounds,
    {
        guitar.add(GuitarString::S5, 0, NoteDuration::Quarter);
        guitar.add(GuitarString::S3, 0, NoteDuration::Quarter);
        guitar.add(GuitarString::S2, 0, NoteDuration::Quarter);
        guitar.add(GuitarString::S3, 0, NoteDuration::Quarter);
        guitar.add(GuitarString::S1, 0, NoteDuration::Quarter);
        guitar.add(GuitarString::S3, 0, NoteDuration::Quarter);
        guitar.add(GuitarString::S2, 0, NoteDuration::Quarter);
        guitar.add(GuitarString::S3, 0, NoteDuration::Quarter);
        rounds += 1;
    }
    let notes = guitar.to_absulate_notes();
    let mut moved: Vec<Note> = Vec::new();
    let mut k: usize = 0;
    while k < notes.len()
        invariant
            k <= notes.len(),
            notes@ == resolve_all(tablature()),
            -21 <= i <= 55,
            moved@ == song(i as int).take(k as int),
        decreases notes.len() - k,
    {
        moved.push(notes[k].add(i));
        k += 1;
    }
    assert(moved@ =~= song(i as int));
    let np = Player::from_bpm(TEMPO);
    np.play(&moved)
}

} // verus!
