//! Musical pitch arithmetic, note durations and the resolution of guitar
//! tablature into playable notes, with every function proved against its
//! contract.

pub mod duration;
pub mod guitar;
pub mod melody;
pub mod note;
pub mod pitch;
pub mod player;

pub use duration::{Fraction, NoteDuration};
pub use guitar::{Guitar, GuitarNote, GuitarNotePitch, GuitarString};
pub use note::{Note, Rest};
pub use pitch::{AbsulateNotePitch, NoteName, NoteType, Octave, RelativePitch};
pub use player::{Cue, Play, Playable, Player};
