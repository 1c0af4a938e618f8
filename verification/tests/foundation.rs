use note_pen::accidental::Accidental;
use note_pen::alphabet::Alphabet;
use note_pen::chord::{Chord, Inversion};
use note_pen::duration::Duration;
use note_pen::key::{Key, Scale};
use note_pen::note::Note;
use note_pen::rest::Rest;
use note_pen::roman_numeral::RomanNumeral;
use note_pen::score::{ScoreCredit, ScoreCreditKey};
use note_pen::solfege::{fixed, Solfege, SolfegeSyllable};
use note_pen::tonality::Tonality;

#[test]
fn test_accidental() {
    let note = Note::new(Alphabet::A, Accidental::Sharp, 4);
    assert_eq!(
        Accidental::Sharp.apply(note),
        Note::new(Alphabet::B, Accidental::Natural, 4)
    );
    assert_eq!(
        Accidental::Sharp.apply(note),
        Note::new(Alphabet::B, Accidental::Natural, 4)
    );
    assert_eq!(
        Accidental::Natural.apply(note),
        Note::new(Alphabet::A, Accidental::Sharp, 4)
    );
    assert_eq!(
        Accidental::DoubleSharp.apply(note),
        Note::new(Alphabet::B, Accidental::Sharp, 4)
    );
    assert_eq!(
        Accidental::Flat.apply(note),
        Note::new(Alphabet::A, Accidental::default(), 4)
    );
}

#[test]
fn test_basic() {
    let c4 = Note::new(Alphabet::C, Accidental::Natural, 4);
    let d4 = Note::new(Alphabet::D, Accidental::Natural, 4);
    let e4 = Note::new(Alphabet::E, Accidental::Natural, 4);

    assert_eq!(c4.to_midi(), midi_file::core::NoteNumber::new(72));
    assert_eq!(d4.to_midi(), midi_file::core::NoteNumber::new(74));
    assert_eq!(e4.to_midi(), midi_file::core::NoteNumber::new(76));
}

#[test]
fn test_add() {
    let a = Note::new(Alphabet::A, Accidental::Natural, 4);
    let b = Note::new(Alphabet::B, Accidental::Natural, 4);
    let c = Note::new(Alphabet::C, Accidental::Natural, 4);
    let d = Note::new(Alphabet::D, Accidental::Natural, 4);
    let e = Note::new(Alphabet::E, Accidental::Natural, 4);
    let f = Note::new(Alphabet::F, Accidental::Natural, 4);
    let g = Note::new(Alphabet::G, Accidental::Natural, 4);

    assert_eq!(a.add_interval(note_pen::Interval::major_second()), b);
    assert_eq!(a.add_interval(note_pen::Interval::minor_third()), c);
    assert_eq!(a.add_interval(note_pen::Interval::perfect_fourth()), d);
    assert_eq!(a.add_interval(note_pen::Interval::perfect_fifth()), e);
    assert_eq!(a.add_interval(note_pen::Interval::minor_sixth()), f);
    assert_eq!(a.add_interval(note_pen::Interval::minor_seventh()), g);
}

#[test]
fn test_sub_note_note() {
    let a = Note::new(Alphabet::A, Accidental::Natural, 4);
    let b = Note::new(Alphabet::B, Accidental::Natural, 4);
    let c = Note::new(Alphabet::C, Accidental::Natural, 4);
    let d = Note::new(Alphabet::D, Accidental::Natural, 4);
    let e = Note::new(Alphabet::E, Accidental::Natural, 4);
    let f = Note::new(Alphabet::F, Accidental::Natural, 4);
    let g = Note::new(Alphabet::G, Accidental::Natural, 4);

    assert_eq!(b.interval_from(&a), note_pen::Interval::major_second());
    assert_eq!(c.interval_from(&a), note_pen::Interval::minor_third());
    assert_eq!(d.interval_from(&a), note_pen::Interval::perfect_fourth());
    assert_eq!(e.interval_from(&a), note_pen::Interval::perfect_fifth());
    assert_eq!(f.interval_from(&a), note_pen::Interval::minor_sixth());
    assert_eq!(g.interval_from(&a), note_pen::Interval::minor_seventh());
}

#[test]
fn test_enharmonic() {
    let a_sharp = Note::new(Alphabet::A, Accidental::Sharp, 4);
    let b_flat = Note::new(Alphabet::B, Accidental::Flat, 4);
    assert_eq!(a_sharp, b_flat);

    let c_sharp = Note::new(Alphabet::C, Accidental::Sharp, 4);
    let d_flat = Note::new(Alphabet::D, Accidental::Flat, 4);
    assert_eq!(c_sharp, d_flat);
}

#[test]
fn test_edge_cases() {
    let b = Note::new(Alphabet::B, Accidental::Natural, 4);
    let b_sharp = Note::new(Alphabet::B, Accidental::Sharp, 4);
    let c = Note::new(Alphabet::C, Accidental::Natural, 4);
    let c_flat = Note::new(Alphabet::C, Accidental::Flat, 4);

    assert_eq!(b_sharp, c);
    assert_eq!(b, c_flat);
    assert_ne!(b, c);
}

#[test]
fn test_root_chord_gen_major() {
    let chord = Chord::triad_from_root(
        Tonality::Major,
        Note::new(Alphabet::C, Accidental::Natural, 4),
        Inversion::root(),
    );
    assert_eq!(
        chord,
        Chord::new(vec![
            Note::new(Alphabet::C, Accidental::Natural, 4),
            Note::new(Alphabet::E, Accidental::Natural, 4),
            Note::new(Alphabet::G, Accidental::Natural, 4),
        ])
    );
}

#[test]
fn test_root_chord_gen_minor() {
    let chord = Chord::triad_from_root(
        Tonality::Minor,
        Note::new(Alphabet::C, Accidental::Natural, 4),
        Inversion::root(),
    );
    assert_eq!(
        chord,
        Chord::new(vec![
            Note::new(Alphabet::C, Accidental::Natural, 4),
            Note::new(Alphabet::E, Accidental::Flat, 4),
            Note::new(Alphabet::G, Accidental::Natural, 4),
        ])
    );
}

#[test]
fn test_root_chord_gen_inversion() {
    let chord = Chord::triad_from_root(
        Tonality::Major,
        Note::new(Alphabet::C, Accidental::Natural, 4),
        Inversion::first(),
    );
    assert_eq!(
        chord,
        Chord::new(vec![
            Note::new(Alphabet::E, Accidental::Natural, 4),
            Note::new(Alphabet::G, Accidental::Natural, 4),
            Note::new(Alphabet::C, Accidental::Natural, 5),
        ])
    );
    let chord = Chord::triad_from_root(
        Tonality::Major,
        Note::new(Alphabet::C, Accidental::Natural, 4),
        Inversion::second(),
    );
    assert_eq!(
        chord,
        Chord::new(vec![
            Note::new(Alphabet::G, Accidental::Natural, 4),
            Note::new(Alphabet::C, Accidental::Natural, 5),
            Note::new(Alphabet::E, Accidental::Natural, 5),
        ])
    );
}

#[test]
fn test_major() {
    let key = Key::new_major(Note::new(Alphabet::C, Accidental::Natural, 4)).unwrap();
    let scale = Scale::from_key(&key);
    assert_eq!(scale.notes.len(), 7);
    assert_eq!(scale.notes[0], Note::new(Alphabet::C, Accidental::Natural, 4));
    assert_eq!(scale.notes[1], Note::new(Alphabet::D, Accidental::Natural, 4));
    assert_eq!(scale.notes[2], Note::new(Alphabet::E, Accidental::Natural, 4));
    assert_eq!(scale.notes[3], Note::new(Alphabet::F, Accidental::Natural, 4));
    assert_eq!(scale.notes[4], Note::new(Alphabet::G, Accidental::Natural, 4));
    assert_eq!(scale.notes[5], Note::new(Alphabet::A, Accidental::Natural, 5));
    assert_eq!(scale.notes[6], Note::new(Alphabet::B, Accidental::Natural, 5));
    let key = Key::new_major(Note::new(Alphabet::G, Accidental::Natural, 4)).unwrap();
    let scale = Scale::from_key(&key);
    assert_eq!(scale.notes.len(), 7);
    assert_eq!(scale.notes[0], Note::new(Alphabet::G, Accidental::Natural, 4));
    assert_eq!(scale.notes[1], Note::new(Alphabet::A, Accidental::Natural, 5));
    assert_eq!(scale.notes[2], Note::new(Alphabet::B, Accidental::Natural, 5));
    assert_eq!(scale.notes[3], Note::new(Alphabet::C, Accidental::Natural, 5));
    assert_eq!(scale.notes[4], Note::new(Alphabet::D, Accidental::Natural, 5));
    assert_eq!(scale.notes[5], Note::new(Alphabet::E, Accidental::Natural, 5));
    assert_eq!(scale.notes[6], Note::new(Alphabet::F, Accidental::Sharp, 5));
    let key = Key::new_major(Note::new(Alphabet::F, Accidental::Sharp, 4)).unwrap();
    let scale = Scale::from_key(&key);
    assert_eq!(scale.notes.len(), 7);
    assert_eq!(scale.notes[0], Note::new(Alphabet::F, Accidental::Sharp, 4));
    assert_eq!(scale.notes[1], Note::new(Alphabet::G, Accidental::Sharp, 4));
    assert_eq!(scale.notes[2], Note::new(Alphabet::A, Accidental::Sharp, 5));
    assert_eq!(scale.notes[3], Note::new(Alphabet::B, Accidental::Natural, 5));
    assert_eq!(scale.notes[4], Note::new(Alphabet::C, Accidental::Sharp, 5));
    assert_eq!(scale.notes[5], Note::new(Alphabet::D, Accidental::Sharp, 5));
    assert_eq!(scale.notes[6], Note::new(Alphabet::E, Accidental::Sharp, 5));
}

#[test]
fn test_minor() {
    let key = Key::new_minor(Note::new(Alphabet::A, Accidental::Natural, 4)).unwrap();
    let scale = Scale::from_key(&key);
    assert_eq!(scale.notes.len(), 7);
    assert_eq!(scale.notes[0], Note::new(Alphabet::A, Accidental::Natural, 4));
    assert_eq!(scale.notes[1], Note::new(Alphabet::B, Accidental::Natural, 4));
    assert_eq!(scale.notes[2], Note::new(Alphabet::C, Accidental::Natural, 4));
    assert_eq!(scale.notes[3], Note::new(Alphabet::D, Accidental::Natural, 4));
    assert_eq!(scale.notes[4], Note::new(Alphabet::E, Accidental::Natural, 4));
    assert_eq!(scale.notes[5], Note::new(Alphabet::F, Accidental::Natural, 4));
    assert_eq!(scale.notes[6], Note::new(Alphabet::G, Accidental::Natural, 4));
    let key = Key::new_minor(Note::new(Alphabet::E, Accidental::Natural, 4)).unwrap();
    let scale = Scale::from_key(&key);
    assert_eq!(scale.notes.len(), 7);
    assert_eq!(scale.notes[0], Note::new(Alphabet::E, Accidental::Natural, 4));
    assert_eq!(scale.notes[1], Note::new(Alphabet::F, Accidental::Sharp, 4));
    assert_eq!(scale.notes[2], Note::new(Alphabet::G, Accidental::Natural, 4));
    assert_eq!(scale.notes[3], Note::new(Alphabet::A, Accidental::Natural, 5));
    assert_eq!(scale.notes[4], Note::new(Alphabet::B, Accidental::Natural, 5));
    assert_eq!(scale.notes[5], Note::new(Alphabet::C, Accidental::Natural, 5));
    assert_eq!(scale.notes[6], Note::new(Alphabet::D, Accidental::Natural, 5));
}

#[test]
fn test_flat() {
    let key = Key::new_major(Note::new(Alphabet::F, Accidental::Natural, 4)).unwrap();
    let scale = Scale::from_key(&key);
    assert_eq!(scale.notes.len(), 7);
    assert_eq!(scale.notes[0], Note::new(Alphabet::F, Accidental::Natural, 4));
    assert_eq!(scale.notes[1], Note::new(Alphabet::G, Accidental::Natural, 4));
    assert_eq!(scale.notes[2], Note::new(Alphabet::A, Accidental::Natural, 5));
    assert_eq!(scale.notes[3], Note::new(Alphabet::B, Accidental::Flat, 5));
    assert_eq!(scale.notes[4], Note::new(Alphabet::C, Accidental::Natural, 5));
    assert_eq!(scale.notes[5], Note::new(Alphabet::D, Accidental::Natural, 5));
    assert_eq!(scale.notes[6], Note::new(Alphabet::E, Accidental::Natural, 5));
}

#[test]
fn test_rest() {
    let rest = Rest::new(Duration::whole());
    assert_eq!(rest.duration(), Duration::whole());
}

#[test]
fn test_inversion() {
    let five_six = RomanNumeral::major_chord(5, Inversion::first());
    let key = Key::new_major(Note::new(Alphabet::C, Accidental::Natural, 4)).unwrap();
    let chord = five_six.chord(&key);
    assert_eq!(chord.notes[0], Note::new(Alphabet::B, Accidental::Natural, 5));
    assert_eq!(chord.notes[1], Note::new(Alphabet::D, Accidental::Natural, 4));
    assert_eq!(chord.notes[2], Note::new(Alphabet::G, Accidental::Natural, 5));
}

#[test]
fn test_score_credit_display() {
    let credit = ScoreCredit {
        key: ScoreCreditKey::Composer,
        value: vec!["Johann Sebastian Bach".to_string()],
    };
    assert_eq!(credit.text(), "Composer: Johann Sebastian Bach");
}

#[test]
fn test_solfege() {
    let solfege = Solfege::new(SolfegeSyllable::Do, fixed());
    assert_eq!(solfege.id().0, 3);
    assert_eq!(solfege.syllable, SolfegeSyllable::Do);
    assert_eq!(solfege.kind.0, fixed().0);
    assert_eq!(
        solfege.syllable.increment().into_u8(),
        SolfegeSyllable::Di.into_u8()
    );
    assert_eq!(
        solfege.syllable.decrement().into_u8(),
        SolfegeSyllable::Ti.into_u8()
    );
}
