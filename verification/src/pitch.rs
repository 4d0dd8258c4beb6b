//! Note names, pitch classes, octaves and the arithmetic of transposition.
//!
//! Every pitch has a linear index, `octave * 12 + pitch class`, counted in
//! half tones from the lowest C. Transposition adds to that index and splits
//! the sum into octave and pitch class again.

use vstd::prelude::*;

verus! {

/// A degree of the chromatic scale in solfège syllables, counted in half tones
/// above Do. It names an interval above some base pitch, not a pitch of its
/// own.
#[derive(Debug, Clone, Copy, PartialEq, Eq, Structural)]
pub enum NoteName {
    Do,
    DoSharp,
    Re,
    ReSharp,
    Mi,
    Fa,
    FaSharp,
    Sol,
    SolSharp,
    La,
    LaSharp,
    Si,
}

impl NoteName {
    /// The number of half tones from Do up to this degree.
    pub open spec fn ordinal(self) -> int {
        match self {
            NoteName::Do => 0,
            NoteName::DoSharp => 1,
            NoteName::Re => 2,
            NoteName::ReSharp => 3,
            NoteName::Mi => 4,
            NoteName::Fa => 5,
            NoteName::FaSharp => 6,
            NoteName::Sol => 7,
            NoteName::SolSharp => 8,
            NoteName::La => 9,
            NoteName::LaSharp => 10,
            NoteName::Si => 11,
        }
    }

    /// The degree that lies `i` half tones above Do, for `0 <= i < 12`.
    pub open spec fn of_ordinal(i: int) -> NoteName
        recommends
            0 <= i < 12,
    {
        if i == 0 {
            NoteName::Do
        } else if i == 1 {
            NoteName::DoSharp
        } else if i == 2 {
            NoteName::Re
        } else if i == 3 {
            NoteName::ReSharp
        } else if i == 4 {
            NoteName::Mi
        } else if i == 5 {
            NoteName::Fa
        } else if i == 6 {
            NoteName::FaSharp
        } else if i == 7 {
            NoteName::Sol
        } else if i == 8 {
            NoteName::SolSharp
        } else if i == 9 {
            NoteName::La
        } else if i == 10 {
            NoteName::LaSharp
        } else {
            NoteName::Si
        }
    }

    /// The number of half tones from Do up to this degree.
    pub fn to_ordinal(self) -> (x: u8)
        ensures
            x == self.ordinal(),
            x < 12,
    {
        match self {
            NoteName::Do => 0,
            NoteName::DoSharp => 1,
            NoteName::Re => 2,
            NoteName::ReSharp => 3,
            NoteName::Mi => 4,
            NoteName::Fa => 5,
            NoteName::FaSharp => 6,
            NoteName::Sol => 7,
            NoteName::SolSharp => 8,
            NoteName::La => 9,
            NoteName::LaSharp => 10,
            NoteName::Si => 11,
        }
    }

    /// The degree that lies `x` half tones above Do. There are twelve degrees, so
    /// `x` must be below 12.
    pub fn from_ordinal(x: u8) -> (n: NoteName)
        requires
            x < 12,
        ensures
            n == NoteName::of_ordinal(x as int),
            n.ordinal() == x,
    {
        match x {
            0 => NoteName::Do,
            1 => NoteName::DoSharp,
            2 => NoteName::Re,
            3 => NoteName::ReSharp,
            4 => NoteName::Mi,
            5 => NoteName::Fa,
            6 => NoteName::FaSharp,
            7 => NoteName::Sol,
            8 => NoteName::SolSharp,
            9 => NoteName::La,
            10 => NoteName::LaSharp,
            11 => NoteName::Si,
            _ => vstd::pervasive::unreached(),
        }
    }

    /// Ordinals and degrees correspond one to one.
    pub proof fn lemma_ordinal_round_trip(self)
        ensures
            0 <= self.ordinal() < 12,
            NoteName::of_ordinal(self.ordinal()) == self,
    {
    }

    /// Every ordinal below 12 is the ordinal of the value it selects.
    pub proof fn lemma_of_ordinal(i: int)
        requires
            0 <= i < 12,
        ensures
            NoteName::of_ordinal(i).ordinal() == i,
    {
    }
}

impl From<NoteName> for u8 {
    /// The ordinal of `name`.
    fn from(name: NoteName) -> (x: u8) {
        name.to_ordinal()
    }
}

impl vstd::std_specs::convert::FromSpecImpl<NoteName> for u8 {
    open spec fn obeys_from_spec() -> bool {
        true
    }

    open spec fn from_spec(name: NoteName) -> u8 {
        name.ordinal() as u8
    }
}

/// A pitch class of the twelve-tone scale, counted in half tones above C.
#[derive(Debug, Clone, Copy, PartialEq, Eq, Structural)]
pub enum NoteType {
    C,
    Cs,
    D,
    Eb,
    E,
    F,
    Fs,
    G,
    Gs,
    A,
    Bb,
    B,
}

impl NoteType {
    /// The number of half tones from C up to this pitch class.
    pub open spec fn ordinal(self) -> int {
        match self {
            NoteType::C => 0,
            NoteType::Cs => 1,
            NoteType::D => 2,
            NoteType::Eb => 3,
            NoteType::E => 4,
            NoteType::F => 5,
            NoteType::Fs => 6,
            NoteType::G => 7,
            NoteType::Gs => 8,
            NoteType::A => 9,
            NoteType::Bb => 10,
            NoteType::B => 11,
        }
    }

    /// The pitch class that lies `i` half tones above C, for `0 <= i < 12`.
    pub open spec fn of_ordinal(i: int) -> NoteType
        recommends
            0 <= i < 12,
    {
        if i == 0 {
            NoteType::C
        } else if i == 1 {
            NoteType::Cs
        } else if i == 2 {
            NoteType::D
        } else if i == 3 {
            NoteType::Eb
        } else if i == 4 {
            NoteType::E
        } else if i == 5 {
            NoteType::F
        } else if i == 6 {
            NoteType::Fs
        } else if i == 7 {
            NoteType::G
        } else if i == 8 {
            NoteType::Gs
        } else if i == 9 {
            NoteType::A
        } else if i == 10 {
            NoteType::Bb
        } else {
            NoteType::B
        }
    }

    /// The number of half tones from C up to this pitch class.
    pub fn to_ordinal(self) -> (x: u8)
        ensures
            x == self.ordinal(),
            x < 12,
    {
        match self {
            NoteType::C => 0,
            NoteType::Cs => 1,
            NoteType::D => 2,
            NoteType::Eb => 3,
            NoteType::E => 4,
            NoteType::F => 5,
            NoteType::Fs => 6,
            NoteType::G => 7,
            NoteType::Gs => 8,
            NoteType::A => 9,
            NoteType::Bb => 10,
            NoteType::B => 11,
        }
    }

    /// The pitch class that lies `x` half tones above C. There are twelve pitch
    /// classes, so `x` must be below 12.
    pub fn from_ordinal(x: u8) -> (n: NoteType)
        requires
            x < 12,
        ensures
            n == NoteType::of_ordinal(x as int),
            n.ordinal() == x,
    {
        match x {
            0 => NoteType::C,
            1 => NoteType::Cs,
            2 => NoteType::D,
            3 => NoteType::Eb,
            4 => NoteType::E,
            5 => NoteType::F,
            6 => NoteType::Fs,
            7 => NoteType::G,
            8 => NoteType::Gs,
            9 => NoteType::A,
            10 => NoteType::Bb,
            11 => NoteType::B,
            _ => vstd::pervasive::unreached(),
        }
    }

    /// Ordinals and pitch classes correspond one to one.
    pub proof fn lemma_ordinal_round_trip(self)
        ensures
            0 <= self.ordinal() < 12,
            NoteType::of_ordinal(self.ordinal()) == self,
    {
    }

    /// Every ordinal below 12 is the ordinal of the value it selects.
    pub proof fn lemma_of_ordinal(i: int)
        requires
            0 <= i < 12,
        ensures
            NoteType::of_ordinal(i).ordinal() == i,
    {
    }
}

impl From<NoteType> for u8 {
    /// The ordinal of `note_type`.
    fn from(note_type: NoteType) -> (x: u8) {
        note_type.to_ordinal()
    }
}

impl vstd::std_specs::convert::FromSpecImpl<NoteType> for u8 {
    open spec fn obeys_from_spec() -> bool {
        true
    }

    open spec fn from_spec(note_type: NoteType) -> u8 {
        note_type.ordinal() as u8
    }
}

/// An octave. The lowest, `O1`, has ordinal 0.
#[derive(Debug, Clone, Copy, PartialEq, Eq, Structural)]
pub enum Octave {
    O1,
    O2,
    O3,
    O4,
    O5,
    O6,
    O7,
    O8,
}

impl Octave {
    /// The number of octaves from the lowest one up to this octave.
    pub open spec fn ordinal(self) -> int {
        match self {
            Octave::O1 => 0,
            Octave::O2 => 1,
            Octave::O3 => 2,
            Octave::O4 => 3,
            Octave::O5 => 4,
            Octave::O6 => 5,
            Octave::O7 => 6,
            Octave::O8 => 7,
        }
    }

    /// The octave that lies `i` octaves above the lowest, for `0 <= i < 8`.
    pub open spec fn of_ordinal(i: int) -> Octave
        recommends
            0 <= i < 8,
    {
        if i == 0 {
            Octave::O1
        } else if i == 1 {
            Octave::O2
        } else if i == 2 {
            Octave::O3
        } else if i == 3 {
            Octave::O4
        } else if i == 4 {
            Octave::O5
        } else if i == 5 {
            Octave::O6
        } else if i == 6 {
            Octave::O7
        } else {
            Octave::O8
        }
    }

    /// The number of octaves from the lowest one up to this octave.
    pub fn to_ordinal(self) -> (x: u8)
        ensures
            x == self.ordinal(),
            x < 8,
    {
        match self {
            Octave::O1 => 0,
            Octave::O2 => 1,
            Octave::O3 => 2,
            Octave::O4 => 3,
            Octave::O5 => 4,
            Octave::O6 => 5,
            Octave::O7 => 6,
            Octave::O8 => 7,
        }
    }

    /// The octave that lies `x` octaves above the lowest. There are eight octaves,
    /// so `x` must be below 8.
    pub fn from_ordinal(x: u8) -> (o: Octave)
        requires
            x < 8,
        ensures
            o == Octave::of_ordinal(x as int),
            o.ordinal() == x,
    {
        match x {
            0 => Octave::O1,
            1 => Octave::O2,
            2 => Octave::O3,
            3 => Octave::O4,
            4 => Octave::O5,
            5 => Octave::O6,
            6 => Octave::O7,
            7 => Octave::O8,
            _ => vstd::pervasive::unreached(),
        }
    }

    /// Ordinals and octaves correspond one to one.
    pub proof fn lemma_ordinal_round_trip(self)
        ensures
            0 <= self.ordinal() < 8,
            Octave::of_ordinal(self.ordinal()) == self,
    {
    }

    /// Every ordinal below 8 is the ordinal of the value it selects.
    pub proof fn lemma_of_ordinal(i: int)
        requires
            0 <= i < 8,
        ensures
            Octave::of_ordinal(i).ordinal() == i,
    {
    }
}

/// A concrete pitch: a pitch class in an octave.
#[derive(Debug, Clone, Copy, PartialEq, Eq, Structural)]
pub struct AbsulateNotePitch {
    pub note_type: NoteType,
    pub octave: Octave,
}

impl AbsulateNotePitch {
    /// The linear index of this pitch: the number of half tones from the
    /// lowest C up to it.
    pub open spec fn index(self) -> int {
        self.octave.ordinal() * 12 + self.note_type.ordinal()
    }

    /// The pitch with linear index `i`, for `0 <= i < 96`.
    pub open spec fn at_index(i: int) -> AbsulateNotePitch
        recommends
            0 <= i < 96,
    {
        AbsulateNotePitch {
            note_type: NoteType::of_ordinal(i % 12),
            octave: Octave::of_ordinal(i / 12),
        }
    }

    /// Whether the pitch `half_tone` half tones away from this one can be
    /// represented.
    pub open spec fn can_transpose(self, half_tone: int) -> bool {
        0 <= self.index() + half_tone < 96
    }

    /// The pitch `half_tone` half tones above this one, or below it where
    /// `half_tone` is negative.
    pub open spec fn transposed(self, half_tone: int) -> AbsulateNotePitch
        recommends
            self.can_transpose(half_tone),
    {
        AbsulateNotePitch::at_index(self.index() + half_tone)
    }

    /// The pitch of class `note_type` in `octave`.
    pub fn new(note_type: NoteType, octave: Octave) -> (pitch: AbsulateNotePitch)
        ensures
            pitch.note_type == note_type,
            pitch.octave == octave,
    {
        AbsulateNotePitch { note_type, octave }
    }

    /// The linear index of this pitch.
    pub fn to_index(self) -> (i: u8)
        ensures
            i == self.index(),
            i < 96,
    {
        self.octave.to_ordinal() * 12 + self.note_type.to_ordinal()
    }

    /// The pitch `half_tone` half tones above this one, or below it where
    /// `half_tone` is negative. The result must lie between the lowest C and
    /// the highest B.
    pub fn add(self, half_tone: i32) -> (pitch: AbsulateNotePitch)
        requires
            self.can_transpose(half_tone as int),
        ensures
            pitch == self.transposed(half_tone as int),
            pitch.index() == self.index() + half_tone,
    {
        let x: i32 = self.to_index() as i32;
        let y: u8 = (x + half_tone) as u8;
        proof {
            NoteType::lemma_of_ordinal(y as int % 12);
            Octave::lemma_of_ordinal(y as int / 12);
        }
        AbsulateNotePitch::new(NoteType::from_ordinal(y % 12), Octave::from_ordinal(y / 12))
    }

    /// Linear indices and pitches correspond one to one.
    pub proof fn lemma_index_round_trip(self)
        ensures
            0 <= self.index() < 96,
            AbsulateNotePitch::at_index(self.index()) == self,
    {
        self.note_type.lemma_ordinal_round_trip();
        self.octave.lemma_ordinal_round_trip();
    }

    /// Every index below 96 is the linear index of the pitch it selects.
    pub proof fn lemma_at_index(i: int)
        requires
            0 <= i < 96,
        ensures
            AbsulateNotePitch::at_index(i).index() == i,
    {
        NoteType::lemma_of_ordinal(i % 12);
        Octave::lemma_of_ordinal(i / 12);
    }

    /// Transposing by `half_tone` and then by `-half_tone` gives the first
    /// pitch back, wherever the pitch in between can be represented.
    pub proof fn lemma_transpose_round_trip(self, half_tone: int)
        requires
            self.can_transpose(half_tone),
        ensures
            self.transposed(half_tone).can_transpose(-half_tone),
            self.transposed(half_tone).transposed(-half_tone) == self,
    {
        AbsulateNotePitch::lemma_at_index(self.index() + half_tone);
        self.lemma_index_round_trip();
    }

    /// Transposing by twelve half tones keeps the pitch class and moves up
    /// one octave, wherever there is an octave above.
    pub proof fn lemma_transpose_octave(self)
        requires
            self.octave.ordinal() + 1 < 8,
        ensures
            self.can_transpose(12),
            self.transposed(12) == (AbsulateNotePitch {
                note_type: self.note_type,
                octave: Octave::of_ordinal(self.octave.ordinal() + 1),
            }),
    {
        self.note_type.lemma_ordinal_round_trip();
        self.octave.lemma_ordinal_round_trip();
    }

    /// Transpositions compose: two steps in a row are one step by their sum.
    pub proof fn lemma_transpose_twice(self, first: int, second: int)
        requires
            self.can_transpose(first),
            self.can_transpose(first + second),
        ensures
            self.transposed(first).can_transpose(second),
            self.transposed(first).transposed(second) == self.transposed(first + second),
    {
        AbsulateNotePitch::lemma_at_index(self.index() + first);
    }
}

/// An interval above a base pitch: a scale degree and a number of octaves.
#[derive(Debug, Clone, Copy, PartialEq, Eq, Structural)]
pub struct RelativePitch {
    pub note_name: NoteName,
    pub octave: Octave,
}

impl RelativePitch {
    /// The size of this interval in half tones.
    pub open spec fn offset(self) -> int {
        self.octave.ordinal() * 12 + self.note_name.ordinal()
    }

    /// The interval of `octave` octaves and the degree `note_name`.
    pub fn new(note_name: NoteName, octave: Octave) -> (pitch: RelativePitch)
        ensures
            pitch.note_name == note_name,
            pitch.octave == octave,
    {
        RelativePitch { note_name, octave }
    }

    /// The pitch that lies this interval above `base`. It must not lie above
    /// the highest B.
    pub fn to_absulate(self, base: AbsulateNotePitch) -> (pitch: AbsulateNotePitch)
        requires
            base.index() + self.offset() < 96,
        ensures
            pitch == AbsulateNotePitch::at_index(base.index() + self.offset()),
            pitch == base.transposed(self.offset()),
            pitch.index() == base.index() + self.offset(),
    {
        let b: u8 = base.to_index();
        let d: u8 = self.octave.to_ordinal() * 12 + self.note_name.to_ordinal();
        let sum: u8 = b + d;
        proof {
            NoteType::lemma_of_ordinal(sum as int % 12);
            Octave::lemma_of_ordinal(sum as int / 12);
        }
        AbsulateNotePitch::new(NoteType::from_ordinal(sum % 12), Octave::from_ordinal(sum / 12))
    }
}

} // verus!
