use note_pen::clef::Clef;
use note_pen::duration::{Duration, PrimitiveDuration};
use note_pen::phrase::{Phrase, PhraseItem};
use note_pen::time::{BeatFraction, Measure};
use note_pen::time_signature::TimeSignature;
use note_pen::voice::{Modifier, Voice, VoiceItem};

#[test]
fn primitive_durations_halve_and_double() {
    assert_eq!(PrimitiveDuration::whole().half(), PrimitiveDuration::minim());
    assert_eq!(PrimitiveDuration::minim().double(), PrimitiveDuration::whole());
    assert_eq!(PrimitiveDuration::try_from_value(4), Ok(PrimitiveDuration::quarter()));
    assert!(PrimitiveDuration::try_from_value(3).is_err());
}

#[test]
fn midi_ticks_of_durations() {
    assert_eq!(PrimitiveDuration::whole().to_midi(), 8192);
    assert_eq!(PrimitiveDuration::minim().to_midi(), 2048);
    assert_eq!(PrimitiveDuration::sixty_fourth().to_midi(), 64);
    // A dotted quarter: 1024 plus half of 1024.
    let dotted = Duration { primitive: PrimitiveDuration::quarter(), dots: 1 };
    assert_eq!(dotted.to_midi(), 1536);
    // A double-dotted quarter adds a quarter of the base as well.
    let double_dotted = Duration { primitive: PrimitiveDuration::quarter(), dots: 2 };
    assert_eq!(double_dotted.to_midi(), 1792);
    assert_eq!(Duration::quarter().to_midi(), 1024);
}

#[test]
fn beat_fractions_simplify() {
    let fraction = BeatFraction::new(4, PrimitiveDuration::sixteenth());
    let reduced = fraction.simplify();
    assert_eq!(reduced.numerator, 1);
    assert_eq!(reduced.denominator, PrimitiveDuration::quarter());
    // An odd numerator is already reduced.
    let odd = BeatFraction::new(3, PrimitiveDuration::eighth()).simplify();
    assert_eq!(odd.numerator, 3);
    assert_eq!(odd.denominator, PrimitiveDuration::eighth());
}

#[test]
fn time_signature_shapes() {
    let time_signature = TimeSignature::new(4, 4);
    assert_eq!(time_signature, TimeSignature::common_time());
    assert_eq!(TimeSignature::new(2, 2), TimeSignature::cut_time());
    assert_eq!(
        TimeSignature::compound(2, PrimitiveDuration::eighth()),
        TimeSignature::new(6, 8)
    );
    assert!(TimeSignature::new(6, 8).is_compound());
    assert!(TimeSignature::new(4, 4).is_simple());
    assert!(TimeSignature::new(5, 4).is_simple());
    assert_eq!(TimeSignature::new(6, 8).beats(), 2);
    assert_eq!(TimeSignature::new(4, 4).beats(), 4);
    assert_eq!(TimeSignature::new(6, 8).value(), PrimitiveDuration::eighth());
    assert_eq!(TimeSignature::new(4, 4).value(), PrimitiveDuration::quarter());
}

#[test]
fn midi_clicks_of_time_signatures() {
    assert_eq!(
        TimeSignature::new(4, 4).midi_clicks(),
        midi_file::core::Clocks::Quarter
    );
    assert_eq!(
        TimeSignature::new(6, 8).midi_clicks(),
        midi_file::core::Clocks::DottedQuarter
    );
    assert_eq!(
        TimeSignature::new(2, 2).midi_clicks(),
        midi_file::core::Clocks::Half
    );
    assert_eq!(
        TimeSignature::new(4, 4).denominator_to_midi(),
        midi_file::core::DurationName::Quarter
    );
    assert_eq!(
        TimeSignature::new(3, 8).denominator_to_midi(),
        midi_file::core::DurationName::Eighth
    );
}

#[test]
fn voices_keep_items_in_insertion_order() {
    let mut voice = Voice::new();
    assert!(voice.is_empty());
    voice.push(VoiceItem::Clef(Clef::Treble));
    voice.push(VoiceItem::StartMeasure(Measure::new(1)));
    assert_eq!(voice.len(), 2);
    assert!(!voice.is_empty());
    assert!(matches!(voice.get_id(0), Some(VoiceItem::Clef(Clef::Treble))));
    assert!(matches!(voice.get_id(1), Some(VoiceItem::StartMeasure(_))));
    assert!(voice.get_id(2).is_none());
}

#[test]
fn voices_store_and_remove_by_key() {
    let mut voice = Voice::new();
    voice.insert(7, VoiceItem::EndRepeat);
    assert_eq!(voice.len(), 1);
    assert!(matches!(voice.get(7), Some(VoiceItem::EndRepeat)));
    assert!(voice.get(8).is_none());
    // Inserting under an existing key replaces in place.
    voice.insert(7, VoiceItem::Clef(Clef::Bass));
    assert_eq!(voice.len(), 1);
    assert!(matches!(voice.get(7), Some(VoiceItem::Clef(Clef::Bass))));
    voice.remove(7);
    assert!(voice.is_empty());
    assert!(voice.get(7).is_none());
}

#[test]
fn modifiers_carry_their_text_as_bytes() {
    let dynamic = Modifier::dynamic("mf");
    assert_eq!(dynamic.identifier, "dynamic");
    assert_eq!(dynamic.name, "Dynamic");
    assert_eq!(dynamic.data, b"mf".to_vec());
    let text = Modifier::text("dolce");
    assert_eq!(text.identifier, "text");
    assert_eq!(text.data, b"dolce".to_vec());
}

#[test]
fn phrases_keep_items_in_insertion_order() {
    let mut phrase = Phrase::new();
    assert_eq!(phrase.len(), 0);
    phrase.push(PhraseItem::Barline(Measure::new(1)));
    phrase.push(PhraseItem::EndRepeat(Measure::new(4)));
    assert_eq!(phrase.len(), 2);
    assert!(matches!(phrase.get_id(0), Some(PhraseItem::Barline(_))));
    assert!(matches!(phrase.get_id(1), Some(PhraseItem::EndRepeat(_))));
    assert!(phrase.get_id(2).is_none());
    phrase.insert(3, PhraseItem::End(Measure::new(8)));
    assert!(matches!(phrase.get(3), Some(PhraseItem::End(_))));
    phrase.remove(3);
    assert!(phrase.get(3).is_none());
    assert_eq!(phrase.len(), 2);
}
