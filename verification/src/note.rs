//! Notes and rests: what a melody is made of.

use vstd::prelude::*;
use crate::duration::NoteDuration;
use crate::pitch::AbsulateNotePitch;

verus! {

/// A pitch that sounds for a note value.
#[derive(Debug, Clone, Copy, PartialEq, Eq, Structural)]
pub struct Note {
    pub pitch: AbsulateNotePitch,
    pub duration: NoteDuration,
}

/// Silence for a note value.
#[derive(Debug, Clone, Copy, PartialEq, Eq, Structural)]
pub struct Rest {
    pub duration: NoteDuration,
}

impl Note {
    /// The number of half tones from the A of the fourth octave up to this
    /// note's pitch; negative below that A. In equal temperament the note
    /// sounds at 440 Hz times two to the power of a twelfth of this number.
    pub open spec fn semitone_offset(self) -> int {
        (self.pitch.octave.ordinal() - 3) * 12 + (self.pitch.note_type.ordinal() - 9)
    }

    /// The number of half tones from the A of the fourth octave up to this
    /// note's pitch; negative below that A.
    pub fn to_semitone_offset(&self) -> (x: i32)
        ensures
            x == self.semitone_offset(),
            x == self.pitch.index() - 45,
            -45 <= x <= 50,
    {
        let octave: i32 = self.pitch.octave.to_ordinal() as i32;
        let note_type: i32 = self.pitch.note_type.to_ordinal() as i32;
        (octave - 3) * 12 + (note_type - 9)
    }

    /// This note moved by `half_tone` half tones, with the same note value.
    /// The new pitch must lie between the lowest C and the highest B.
    pub fn add(self, half_tone: i32) -> (note: Note)
        requires
            self.pitch.can_transpose(half_tone as int),
        ensures
            note.pitch == self.pitch.transposed(half_tone as int),
            note.duration == self.duration,
    {
        Note { pitch: self.pitch.add(half_tone), duration: self.duration }
    }
}

} // verus!
