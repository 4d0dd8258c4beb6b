use note_player::duration::NoteDuration;
use note_player::guitar::{Guitar, GuitarString};
use note_player::melody;
use note_player::note::{Note, Rest};
use note_player::pitch::{AbsulateNotePitch, NoteType, Octave};
use note_player::player::{Cue, Play, Playable, Player};

fn note(note_type: NoteType, octave: Octave, duration: NoteDuration) -> Note {
    Note { pitch: AbsulateNotePitch::new(note_type, octave), duration }
}

#[test]
fn player_new_keeps_the_bar_duration() {
    assert_eq!(Player::new(1_234_567).bar_nanos, 1_234_567);
}

#[test]
fn a_bar_is_four_beats() {
    assert_eq!(Player::from_bpm(120).bar_nanos, 2_000_000_000);
    assert_eq!(Player::from_bpm(60).bar_nanos, 4_000_000_000);
    assert_eq!(Player::from_bpm(240).bar_nanos, 1_000_000_000);
    assert_eq!(Player::from_bpm(1).bar_nanos, 240_000_000_000);
}

#[test]
fn a_beat_is_rounded_down_to_a_nanosecond() {
    assert_eq!(Player::from_bpm(7).bar_nanos, 4 * 8_571_428_571);
    assert_eq!(Player::from_bpm(u32::MAX).bar_nanos, 4 * 13);
}

#[test]
fn a_note_sounds_for_its_share_of_the_bar() {
    let a4 = note(NoteType::A, Octave::O4, NoteDuration::Quarter);
    assert_eq!(a4.play(2_000_000_000), Cue { tone: Some(0), wait_nanos: 500_000_000 });
    let e2 = note(NoteType::E, Octave::O2, NoteDuration::HalfDotted);
    assert_eq!(e2.play(1_000_000_000), Cue { tone: Some(-29), wait_nanos: 750_000_000 });
}

#[test]
fn a_rest_is_silent_for_its_share_of_the_bar() {
    let rest = Rest { duration: NoteDuration::Eighth };
    assert_eq!(rest.play(2_000_000_000), Cue { tone: None, wait_nanos: 250_000_000 });
}

#[test]
fn a_borrowed_event_plays_as_the_event() {
    let n = note(NoteType::C, Octave::O5, NoteDuration::Sixteenth);
    let borrowed = &n;
    assert_eq!(Play::play(&borrowed, 1_600), n.play(1_600));
    assert_eq!(Play::play(&borrowed, 1_600), Cue { tone: Some(3), wait_nanos: 100 });
    let rest = Rest { duration: NoteDuration::Whole };
    let events = vec![&rest, &rest];
    let cues = Player::new(10).play(&events);
    assert_eq!(cues, vec![Cue { tone: None, wait_nanos: 10 }; 2]);
}

#[test]
fn an_event_plays_as_the_note_or_rest_it_holds() {
    let n = note(NoteType::B, Octave::O3, NoteDuration::Half);
    let r = Rest { duration: NoteDuration::Half };
    assert_eq!(Playable::Note(n).play(800), Cue { tone: Some(-10), wait_nanos: 400 });
    assert_eq!(Playable::Rest(r).play(800), Cue { tone: None, wait_nanos: 400 });
}

#[test]
fn no_events_give_no_cues() {
    let events: Vec<Note> = Vec::new();
    assert_eq!(Player::from_bpm(120).play(&events), Vec::<Cue>::new());
}

#[test]
fn notes_and_rests_are_played_in_order() {
    let events = vec![
        Playable::Note(note(NoteType::A, Octave::O4, NoteDuration::Quarter)),
        Playable::Rest(Rest { duration: NoteDuration::Eighth }),
        Playable::Note(note(NoteType::A, Octave::O5, NoteDuration::WholeDotted)),
        Playable::Rest(Rest { duration: NoteDuration::SixtyFourth }),
    ];
    let cues = Player::from_bpm(120).play(&events);
    let expected = vec![
        Cue { tone: Some(0), wait_nanos: 500_000_000 },
        Cue { tone: None, wait_nanos: 250_000_000 },
        Cue { tone: Some(12), wait_nanos: 3_000_000_000 },
        Cue { tone: None, wait_nanos: 31_250_000 },
    ];
    assert_eq!(cues, expected);
}

#[test]
fn eight_open_strings_at_120_bpm_last_four_seconds() {
    let strings = [
        GuitarString::S5,
        GuitarString::S3,
        GuitarString::S2,
        GuitarString::S3,
        GuitarString::S1,
        GuitarString::S3,
        GuitarString::S2,
        GuitarString::S3,
    ];
    let mut guitar = Guitar::new();
    for s in strings {
        guitar.add(s, 0, NoteDuration::Quarter);
    }
    let song: Vec<Note> = guitar.to_absulate_notes().into_iter().map(|n| n.add(0)).collect();
    let player = Player::from_bpm(120);
    assert_eq!(player.bar_nanos, 2_000_000_000);
    assert_eq!(player.bar_nanos as f64 / 1e9, 2.0);
    let cues = player.play(&song);
    assert_eq!(cues.len(), 8);
    for cue in &cues {
        assert_eq!(cue.wait_nanos, 500_000_000);
        assert_eq!(cue.wait_nanos as f64 / 1e9, 0.5);
    }
    let tones: Vec<Option<i32>> = cues.iter().map(|c| c.tone).collect();
    let expected = vec![
        Some(-24),
        Some(-14),
        Some(-10),
        Some(-14),
        Some(-5),
        Some(-14),
        Some(-10),
        Some(-14),
    ];
    assert_eq!(tones, expected);
    let total: u128 = cues.iter().map(|c| c.wait_nanos).sum();
    assert_eq!(total, 4_000_000_000);
    assert_eq!(total as f64 / 1e9, 4.0);
}

#[test]
fn the_melody_is_the_round_twice() {
    let cues = melody::play(0);
    assert_eq!(cues.len(), 16);
    let round = [-24, -14, -10, -14, -5, -14, -10, -14];
    for (k, cue) in cues.iter().enumerate() {
        assert_eq!(*cue, Cue { tone: Some(round[k % 8]), wait_nanos: 500_000_000 });
    }
}

#[test]
fn the_melody_moves_by_half_tones() {
    let still = melody::play(0);
    for i in [-21, -1, 1, 11, 55] {
        let moved = melody::play(i);
        assert_eq!(moved.len(), still.len());
        for (a, b) in still.iter().zip(moved.iter()) {
            assert_eq!(b.tone, a.tone.map(|t| t + i));
            assert_eq!(b.wait_nanos, a.wait_nanos);
        }
    }
}

#[test]
fn the_melody_spans_the_whole_range_at_its_limits() {
    let low = melody::play(-21);
    assert_eq!(low[0].tone, Some(-45));
    let high = melody::play(55);
    assert_eq!(high[4].tone, Some(50));
}
