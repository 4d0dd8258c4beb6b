//! The sequencer: it lays out, event by event, what to sound and for how
//! long, for a melody played at a tempo.

use vstd::prelude::*;
use crate::note::{Note, Rest};

verus! {

/// What there is to do for one event of a melody: sound a tone, or keep
/// silent, and hold that for a time.
#[derive(Debug, Clone, Copy, PartialEq, Eq, Structural)]
pub struct Cue {
    /// The tone to sound, in half tones above the A of the fourth octave, or
    /// `None` for silence.
    pub tone: Option<i32>,
    /// The time to hold the tone or the silence, in nanoseconds.
    pub wait_nanos: u128,
}

/// Something that takes its turn in a melody.
pub trait Play {
    /// What there is to do for this event in a bar of `bar_nanos`
    /// nanoseconds.
    spec fn cue(&self, bar_nanos: u64) -> Cue;

    /// What there is to do for this event in a bar of `bar_nanos`
    /// nanoseconds.
    fn play(&self, bar_nanos: u64) -> (cue: Cue)
        ensures
            cue == self.cue(bar_nanos),
    ;
}

impl Play for Note {
    /// A note sounds at its pitch for its share of the bar.
    open spec fn cue(&self, bar_nanos: u64) -> Cue {
        Cue {
            tone: Some(self.semitone_offset() as i32),
            wait_nanos: self.duration.share_of(bar_nanos as int) as u128,
        }
    }

    fn play(&self, bar_nanos: u64) -> (cue: Cue) {
        Cue {
            tone: Some(self.to_semitone_offset()),
            wait_nanos: self.duration.to_share_of(bar_nanos),
        }
    }
}

impl Play for Rest {
    /// A rest is silent for its share of the bar.
    open spec fn cue(&self, bar_nanos: u64) -> Cue {
        Cue { tone: None, wait_nanos: self.duration.share_of(bar_nanos as int) as u128 }
    }

    fn play(&self, bar_nanos: u64) -> (cue: Cue) {
        Cue { tone: None, wait_nanos: self.duration.to_share_of(bar_nanos) }
    }
}

/// An event of a melody: a note or a rest.
#[derive(Debug, Clone, Copy, PartialEq, Eq, Structural)]
pub enum Playable {
    Note(Note),
    Rest(Rest),
}

impl Play for Playable {
    /// An event is played as the note or the rest that it holds.
    open spec fn cue(&self, bar_nanos: u64) -> Cue {
        match self {
            Playable::Note(note) => note.cue(bar_nanos),
            Playable::Rest(rest) => rest.cue(bar_nanos),
        }
    }

    fn play(&self, bar_nanos: u64) -> (cue: Cue) {
        match self {
            Playable::Note(note) => note.play(bar_nanos),
            Playable::Rest(rest) => rest.play(bar_nanos),
        }
    }
}

impl<'a, T: Play> Play for &'a T {
    /// A borrowed event is played as the event itself.
    open spec fn cue(&self, bar_nanos: u64) -> Cue {
        (**self).cue(bar_nanos)
    }

    fn play(&self, bar_nanos: u64) -> (cue: Cue) {
        (*self).play(bar_nanos)
    }
}

/// The number of nanoseconds in a minute.
pub const NANOS_PER_MINUTE: u64 = 60_000_000_000;

/// The number of beats in a bar.
pub const BEATS_PER_BAR: u64 = 4;

/// The length in nanoseconds of a bar at `bpm` beats per minute: a beat
/// lasts a minute divided by `bpm`, rounded down to a whole nanosecond, and a
/// bar is four beats.
pub open spec fn bar_nanos_at(bpm: u32) -> int
    recommends
        bpm > 0,
{
    4 * (60_000_000_000int / (bpm as int))
}

/// The cues of the events `notes` in a bar of `bar_nanos` nanoseconds: one
/// for each event, in the order of the events.
pub open spec fn cues_of<T: Play>(notes: Seq<T>, bar_nanos: u64) -> Seq<Cue> {
    Seq::new(notes.len(), |i: int| notes[i].cue(bar_nanos))
}

/// The timing of a performance.
pub struct Player {
    /// The length of a bar in nanoseconds.
    pub bar_nanos: u64,
}

impl Player {
    /// A player whose bars last `bar_nanos` nanoseconds.
    pub fn new(bar_nanos: u64) -> (player: Player)
        ensures
            player.bar_nanos == bar_nanos,
    {
        Player { bar_nanos }
    }

    /// A player at `bpm` beats per minute, four beats to the bar. The tempo
    /// must be positive.
    pub fn from_bpm(bpm: u32) -> (player: Player)
        requires
            bpm > 0,
        ensures
            player.bar_nanos == bar_nanos_at(bpm),
    {
        Player::new(BEATS_PER_BAR * (NANOS_PER_MINUTE / bpm as u64))
    }

    /// Lays out the performance of `notes`: one cue for each event, in the
    /// order of the events, each held for the event's share of the bar. The
    /// events follow one another without overlap, so the performance lasts
    /// the sum of the cues' times.
    pub fn play<T: Play>(&self, notes: &Vec<T>) -> (cues: Vec<Cue>)
        ensures
            cues@ == cues_of(notes@, self.bar_nanos),
    {
        let mut cues: Vec<Cue> = Vec::new();
        let mut i: usize = 0;
        while i < notes.len()
            invariant
                i <= notes.len(),
                cues@ == cues_of(notes@.take(i as int), self.bar_nanos),
            decreases notes.len() - i,
        {
            cues.push(notes[i].play(self.bar_nanos));
            i += 1;
        }
        assert(notes@.take(i as int) =~= notes@);
        cues
    }
}

} // verus!
