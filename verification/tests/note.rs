use note_player::duration::NoteDuration;
use note_player::note::{Note, Rest};
use note_player::pitch::{AbsulateNotePitch, NoteType, Octave};

fn note(note_type: NoteType, octave: Octave, duration: NoteDuration) -> Note {
    Note { pitch: AbsulateNotePitch::new(note_type, octave), duration }
}

fn frequency(n: &Note) -> f32 {
    (2.0f64.powf(n.to_semitone_offset() as f64 / 12.0) * 440.0) as f32
}

#[test]
fn concert_a_is_the_reference_pitch() {
    let a4 = note(NoteType::A, Octave::O4, NoteDuration::Quarter);
    assert_eq!(a4.to_semitone_offset(), 0);
    assert_eq!(frequency(&a4), 440.0);
}

#[test]
fn an_octave_above_concert_a_doubles_the_frequency() {
    let a5 = note(NoteType::A, Octave::O5, NoteDuration::Quarter);
    assert_eq!(a5.to_semitone_offset(), 12);
    assert!((frequency(&a5) - 880.0).abs() < 1e-3);
}

#[test]
fn semitone_offset_counts_from_concert_a() {
    assert_eq!(note(NoteType::C, Octave::O1, NoteDuration::Whole).to_semitone_offset(), -45);
    assert_eq!(note(NoteType::Gs, Octave::O4, NoteDuration::Whole).to_semitone_offset(), -1);
    assert_eq!(note(NoteType::Bb, Octave::O4, NoteDuration::Whole).to_semitone_offset(), 1);
    assert_eq!(note(NoteType::C, Octave::O5, NoteDuration::Whole).to_semitone_offset(), 3);
    assert_eq!(note(NoteType::E, Octave::O2, NoteDuration::Whole).to_semitone_offset(), -29);
    assert_eq!(note(NoteType::B, Octave::O8, NoteDuration::Whole).to_semitone_offset(), 50);
}

#[test]
fn semitone_offset_does_not_depend_on_the_duration() {
    let short = note(NoteType::D, Octave::O3, NoteDuration::SixtyFourth);
    let long = note(NoteType::D, Octave::O3, NoteDuration::WholeDotted);
    assert_eq!(short.to_semitone_offset(), long.to_semitone_offset());
    assert_eq!(short.to_semitone_offset(), -19);
}

#[test]
fn note_add_moves_the_pitch_and_keeps_the_duration() {
    let n = note(NoteType::A, Octave::O2, NoteDuration::EighthDotted);
    let moved = n.add(5);
    assert_eq!(moved, note(NoteType::D, Octave::O3, NoteDuration::EighthDotted));
    let back = moved.add(-5);
    assert_eq!(back, n);
}

#[test]
fn note_add_leaves_the_first_note_as_it_was() {
    let n = note(NoteType::G, Octave::O3, NoteDuration::Half);
    let moved = n.add(11);
    assert_eq!(n, note(NoteType::G, Octave::O3, NoteDuration::Half));
    assert_eq!(moved, note(NoteType::Fs, Octave::O4, NoteDuration::Half));
}

#[test]
fn note_add_raises_the_semitone_offset_by_as_much() {
    let n = note(NoteType::E, Octave::O4, NoteDuration::Quarter);
    for h in -40..=55 {
        assert_eq!(n.add(h).to_semitone_offset(), n.to_semitone_offset() + h);
    }
}

#[test]
fn rests_compare_by_duration() {
    assert_eq!(Rest { duration: NoteDuration::Half }, Rest { duration: NoteDuration::Half });
    assert_ne!(Rest { duration: NoteDuration::Half }, Rest { duration: NoteDuration::HalfDotted });
}
