//! A six-string guitar: its tuning, the notes fretted on it, and their
//! resolution into pitches.

use std::collections::HashMap;
use vstd::prelude::*;
use crate::duration::NoteDuration;
use crate::note::Note;
use crate::pitch::{AbsulateNotePitch, NoteType, Octave};

verus! {

/// One of the six strings, from the highest, `S1`, to the lowest, `S6`.
#[derive(Debug, Clone, Copy, Hash, PartialEq, Eq, Structural)]
pub enum GuitarString {
    S1,
    S2,
    S3,
    S4,
    S5,
    S6,
}

impl GuitarString {
    /// The place of this string among the six, counted from 0 for `S1`.
    pub open spec fn ordinal(self) -> int {
        match self {
            GuitarString::S1 => 0,
            GuitarString::S2 => 1,
            GuitarString::S3 => 2,
            GuitarString::S4 => 3,
            GuitarString::S5 => 4,
            GuitarString::S6 => 5,
        }
    }

    /// The pitch of this string in standard tuning when it is played open.
    pub open spec fn open_pitch(self) -> AbsulateNotePitch {
        match self {
            GuitarString::S1 => AbsulateNotePitch { note_type: NoteType::E, octave: Octave::O4 },
            GuitarString::S2 => AbsulateNotePitch { note_type: NoteType::B, octave: Octave::O3 },
            GuitarString::S3 => AbsulateNotePitch { note_type: NoteType::G, octave: Octave::O3 },
            GuitarString::S4 => AbsulateNotePitch { note_type: NoteType::D, octave: Octave::O3 },
            GuitarString::S5 => AbsulateNotePitch { note_type: NoteType::A, octave: Octave::O2 },
            GuitarString::S6 => AbsulateNotePitch { note_type: NoteType::E, octave: Octave::O2 },
        }
    }

    /// The place of this string among the six, counted from 0 for `S1`.
    pub fn to_ordinal(self) -> (x: u8)
        ensures
            x == self.ordinal(),
            x < 6,
    {
        match self {
            GuitarString::S1 => 0,
            GuitarString::S2 => 1,
            GuitarString::S3 => 2,
            GuitarString::S4 => 3,
            GuitarString::S5 => 4,
            GuitarString::S6 => 5,
        }
    }
}

/// Standard tuning: the open pitch of every string.
pub open spec fn standard_tuning() -> Map<GuitarString, AbsulateNotePitch> {
    Map::new(|s: GuitarString| true, |s: GuitarString| s.open_pitch())
}

/// A place on the fretboard: the open pitch of a string and the fret at
/// which the string is stopped, 0 for the open string.
#[derive(Debug, Clone, Copy, PartialEq, Eq, Structural)]
pub struct GuitarNotePitch {
    pub base: AbsulateNotePitch,
    pub position: u8,
}

impl GuitarNotePitch {
    /// Whether the pitch at this place can be represented: the frets must not
    /// lead above the highest octave.
    pub open spec fn resolvable(self) -> bool {
        self.base.octave.ordinal() + (self.base.note_type.ordinal() + self.position) / 12 < 8
    }

    /// The pitch that sounds at this place. Every fret is a half tone: the
    /// frets are added to the pitch class of the open string, and each full
    /// twelve carry into the octave.
    pub open spec fn resolved(self) -> AbsulateNotePitch
        recommends
            self.resolvable(),
    {
        AbsulateNotePitch {
            note_type: NoteType::of_ordinal((self.base.note_type.ordinal() + self.position) % 12),
            octave: Octave::of_ordinal(
                self.base.octave.ordinal() + (self.base.note_type.ordinal() + self.position) / 12,
            ),
        }
    }

    /// The place at fret `position` on a string whose open pitch is `base`.
    pub fn new(base: AbsulateNotePitch, position: u8) -> (pitch: GuitarNotePitch)
        ensures
            pitch.base == base,
            pitch.position == position,
    {
        GuitarNotePitch { base, position }
    }

    /// The pitch that sounds at this place, which must not lie above the
    /// highest octave.
    pub fn to_absulate(&self) -> (pitch: AbsulateNotePitch)
        requires
            self.resolvable(),
        ensures
            pitch == self.resolved(),
            pitch == self.base.transposed(self.position as int),
    {
        let raised: u8 = self.base.note_type.to_ordinal() + self.position;
        let note_type: u8 = raised % 12;
        let octave: u8 = self.base.octave.to_ordinal() + raised / 12;
        proof {
            self.lemma_fretting_is_transposition();
        }
        AbsulateNotePitch::new(NoteType::from_ordinal(note_type), Octave::from_ordinal(octave))
    }

    /// Stopping a string at a fret transposes its open pitch by as many half
    /// tones: carrying from the pitch class into the octave gives the same
    /// pitch as adding to the linear index.
    pub proof fn lemma_fretting_is_transposition(self)
        requires
            self.resolvable(),
        ensures
            self.base.can_transpose(self.position as int),
            self.resolved() == self.base.transposed(self.position as int),
    {
        self.base.note_type.lemma_ordinal_round_trip();
        self.base.octave.lemma_ordinal_round_trip();
    }
}

/// A fretted note: a place on the fretboard and a note value.
#[derive(Debug, Clone, Copy, PartialEq, Eq, Structural)]
pub struct GuitarNote {
    pub pitch: GuitarNotePitch,
    pub duration: NoteDuration,
}

impl GuitarNote {
    /// The note that sounds: the pitch at the place on the fretboard, with
    /// the same note value.
    pub open spec fn resolved(self) -> Note
        recommends
            self.pitch.resolvable(),
    {
        Note { pitch: self.pitch.resolved(), duration: self.duration }
    }

    /// The note that sounds. Its pitch must not lie above the highest octave.
    pub fn to_absulate(&self) -> (note: Note)
        requires
            self.pitch.resolvable(),
        ensures
            note == self.resolved(),
    {
        Note { pitch: self.pitch.to_absulate(), duration: self.duration }
    }
}

/// Whether every note of `notes` has a pitch that can be represented.
pub open spec fn all_resolvable(notes: Seq<GuitarNote>) -> bool {
    forall|i: int| 0 <= i < notes.len() ==> (#[trigger] notes[i]).pitch.resolvable()
}

/// The notes that sound when `notes` are played, in the same order.
pub open spec fn resolve_all(notes: Seq<GuitarNote>) -> Seq<Note> {
    Seq::new(notes.len(), |i: int| notes[i].resolved())
}

/// What a guitar is, seen from outside: its tuning and the notes fretted on
/// it so far, in the order in which they were added.
pub struct GuitarView {
    pub tuning: Map<GuitarString, AbsulateNotePitch>,
    pub notes: Seq<GuitarNote>,
}

/// The open pitch of each string, kept under the string's ordinal.
struct Tuning {
    base: HashMap<u8, AbsulateNotePitch>,
}

impl Tuning {
    /// Every string has an open pitch.
    #[verifier::type_invariant]
    spec fn complete(self) -> bool {
        forall|k: u8| 0 <= k < 6 ==> self.base@.contains_key(k)
    }

    /// The open pitch of each string.
    spec fn table(self) -> Map<GuitarString, AbsulateNotePitch> {
        Map::new(|s: GuitarString| true, |s: GuitarString| self.base@[s.ordinal() as u8])
    }

    /// Standard tuning.
    fn standard() -> (tuning: Tuning)
        ensures
            tuning.table() == standard_tuning(),
    {
        let mut base: HashMap<u8, AbsulateNotePitch> = HashMap::new();
        base.insert(
            GuitarString::S1.to_ordinal(),
            AbsulateNotePitch::new(NoteType::E, Octave::O4),
        );
        base.insert(
            GuitarString::S2.to_ordinal(),
            AbsulateNotePitch::new(NoteType::B, Octave::O3),
        );
        base.insert(
            GuitarString::S3.to_ordinal(),
            AbsulateNotePitch::new(NoteType::G, Octave::O3),
        );
        base.insert(
            GuitarString::S4.to_ordinal(),
            AbsulateNotePitch::new(NoteType::D, Octave::O3),
        );
        base.insert(
            GuitarString::S5.to_ordinal(),
            AbsulateNotePitch::new(NoteType::A, Octave::O2),
        );
        base.insert(
            GuitarString::S6.to_ordinal(),
            AbsulateNotePitch::new(NoteType::E, Octave::O2),
        );
        let tuning = Tuning { base };
        assert(tuning.table() =~= standard_tuning());
        tuning
    }

    /// The open pitch of string `s`.
    fn open_pitch(&self, s: GuitarString) -> (pitch: AbsulateNotePitch)
        ensures
            pitch == self.table()[s],
    {
        proof {
            use_type_invariant(self);
        }
        match self.base.get(&s.to_ordinal()) {
            Some(open) => *open,
            None => vstd::pervasive::unreached(),
        }
    }
}

/// A guitar in standard tuning that collects fretted notes.
pub struct Guitar {
    base: Tuning,
    notes: Vec<GuitarNote>,
}

impl View for Guitar {
    type V = GuitarView;

    closed spec fn view(&self) -> GuitarView {
        GuitarView { tuning: self.base.table(), notes: self.notes@ }
    }
}

impl Guitar {
    /// A guitar in standard tuning with no notes on it.
    pub fn new() -> (guitar: Guitar)
        ensures
            guitar@.tuning == standard_tuning(),
            guitar@.notes == Seq::<GuitarNote>::empty(),
    {
        Guitar { base: Tuning::standard(), notes: Vec::new() }
    }

    /// Adds the note at fret `position` on string `s`, lasting `duration`,
    /// after the notes that are already there.
    pub fn add(&mut self, s: GuitarString, position: u8, duration: NoteDuration)
        ensures
            final(self)@.tuning == old(self)@.tuning,
            final(self)@.tuning.contains_key(s),
            final(self)@.notes == old(self)@.notes.push(
                GuitarNote {
                    pitch: GuitarNotePitch { base: old(self)@.tuning[s], position },
                    duration,
                },
            ),
    {
        let base = self.base.open_pitch(s);
        self.notes.push(GuitarNote { pitch: GuitarNotePitch::new(base, position), duration });
    }

    /// The notes that sound when the notes on this guitar are played, in the
    /// order in which they were added. The guitar keeps its notes. None of
    /// them may lie above the highest octave.
    pub fn to_absulate_notes(&self) -> (notes: Vec<Note>)
        requires
            all_resolvable(self@.notes),
        ensures
            notes@ == resolve_all(self@.notes),
    {
        let mut resolved: Vec<Note> = Vec::new();
        let mut i: usize = 0;
        while i < self.notes.len()
            invariant
                i <= self.notes.len(),
                all_resolvable(self.notes@),
                resolved@ == resolve_all(self.notes@.take(i as int)),
            decreases self.notes.len() - i,
        {
            resolved.push(self.notes[i].to_absulate());
            i += 1;
        }
        assert(self.notes@.take(i as int) =~= self.notes@);
        resolved
    }

    /// Resolving the notes of one guitar gives the same notes every time:
    /// whatever two calls of `to_absulate_notes` on it return is equal.
    pub proof fn lemma_resolution_is_repeatable(
        guitar: Guitar,
        first: Vec<Note>,
        second: Vec<Note>,
    )
        requires
            call_ensures(Guitar::to_absulate_notes, (&guitar,), first),
            call_ensures(Guitar::to_absulate_notes, (&guitar,), second),
        ensures
            first@ == second@,
            first@ == resolve_all(guitar@.notes),
    {
    }
}

} // verus!
