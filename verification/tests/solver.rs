use note_pen::accidental::Accidental;
use note_pen::alphabet::Alphabet;
use note_pen::chord::Inversion;
use note_pen::key::Key;
use note_pen::note::Note;
use note_pen::roman_numeral::RomanNumeral;
use note_pen::tonality::Tonality;
use note_pen::voice_leading::{best, enumerate, key_of, score, solve, Solution, SolveError};

fn c_major() -> Key {
    Key::new_major(Note::new(Alphabet::C, Accidental::Natural, 4)).unwrap()
}

fn note(alphabet: Alphabet, octave: u8) -> Note {
    Note::new(alphabet, Accidental::Natural, octave)
}

#[test]
fn enumerate_counts_are_products_of_step_candidates() {
    let key = c_major();
    // Two triads, each with three distinct pool notes: 6 * 6 solutions.
    let progression = vec![
        RomanNumeral::major_chord(1, Inversion::root()),
        RomanNumeral::major_chord(5, Inversion::root()),
    ];
    let solutions = enumerate(&key, &progression).unwrap();
    assert_eq!(solutions.len(), 36);
    for s in &solutions {
        assert_eq!(s.soprano.len(), 2);
        assert_eq!(s.alto.len(), 2);
        assert_eq!(s.tenor.len(), 2);
        assert_eq!(s.bass.len(), 2);
    }
}

#[test]
fn single_chord_progression_yields_six_free_solutions() {
    let key = c_major();
    let progression = vec![RomanNumeral::major_chord(1, Inversion::root())];
    let solutions = enumerate(&key, &progression).unwrap();
    assert_eq!(solutions.len(), 6);
    for s in &solutions {
        assert_eq!(s.soprano.len(), 1);
        assert_eq!(s.alto.len(), 1);
        assert_eq!(s.tenor.len(), 1);
        assert_eq!(s.bass.len(), 1);
        assert_eq!(score(&key, s), 0);
    }
}

#[test]
fn empty_progression_is_invalid() {
    let key = c_major();
    let progression: Vec<RomanNumeral> = vec![];
    assert!(matches!(
        enumerate(&key, &progression),
        Err(SolveError::InvalidProgression)
    ));
    assert!(matches!(
        solve(&key, &progression),
        Err(SolveError::InvalidProgression)
    ));
}

#[test]
fn no_solutions_to_select_from() {
    let key = c_major();
    let empty: Vec<Solution> = vec![];
    assert!(matches!(best(&key, empty), Err(SolveError::NoSolutions)));
}

#[test]
fn unresolvable_keys_are_reported() {
    // No major key is rooted on A-sharp, and the diminished mode has no
    // diatonic scale at all.
    let a_sharp = Note::new(Alphabet::A, Accidental::Sharp, 4);
    assert!(matches!(
        key_of(a_sharp, Tonality::Major),
        Err(SolveError::UnresolvableKey)
    ));
    assert!(matches!(
        key_of(note(Alphabet::C, 4), Tonality::Diminished),
        Err(SolveError::UnresolvableKey)
    ));
    assert!(key_of(note(Alphabet::C, 4), Tonality::Major).is_ok());
    assert!(key_of(note(Alphabet::A, 4), Tonality::Minor).is_ok());
}

#[test]
fn known_voicing_of_one_five_one_scores_six() {
    // Progression [I, V, I] in C major, each triad in root position.
    // Soprano G-D-G, alto E-B-E, tenor C-G-C over bass C-G-C: every upper
    // voice moves at both transitions, so each contributes 2.
    let key = c_major();
    let solution = Solution {
        soprano: vec![note(Alphabet::G, 4), note(Alphabet::D, 4), note(Alphabet::G, 4)],
        alto: vec![note(Alphabet::E, 4), note(Alphabet::B, 5), note(Alphabet::E, 4)],
        tenor: vec![note(Alphabet::C, 4), note(Alphabet::G, 4), note(Alphabet::C, 4)],
        bass: vec![note(Alphabet::C, 4), note(Alphabet::G, 4), note(Alphabet::C, 4)],
    };
    assert_eq!(score(&key, &solution), 6);
}

#[test]
fn solve_picks_a_minimal_solution_of_one_five_one() {
    let key = c_major();
    let progression = vec![
        RomanNumeral::major_chord(1, Inversion::root()),
        RomanNumeral::major_chord(5, Inversion::root()),
        RomanNumeral::major_chord(1, Inversion::root()),
    ];
    let best_solution = solve(&key, &progression).unwrap();
    // Only the common tone G can stand still between I and V, so each of
    // the two transitions moves at least two voices.
    assert_eq!(score(&key, &best_solution), 4);
    // The selector returns a solution no worse than any enumerated one.
    let all = enumerate(&key, &progression).unwrap();
    let best_cost = score(&key, &best_solution);
    for s in &all {
        assert!(best_cost <= score(&key, s));
    }
}

#[test]
fn rescoring_is_deterministic_and_ignores_the_bass() {
    let key = c_major();
    let solution = Solution {
        soprano: vec![note(Alphabet::G, 4), note(Alphabet::D, 4)],
        alto: vec![note(Alphabet::E, 4), note(Alphabet::B, 5)],
        tenor: vec![note(Alphabet::C, 4), note(Alphabet::G, 4)],
        bass: vec![note(Alphabet::C, 4), note(Alphabet::G, 4)],
    };
    assert_eq!(score(&key, &solution), score(&key, &solution));
    let other_bass = Solution {
        soprano: solution.soprano.clone(),
        alto: solution.alto.clone(),
        tenor: solution.tenor.clone(),
        bass: vec![note(Alphabet::E, 4), note(Alphabet::F, 4)],
    };
    assert_eq!(score(&key, &solution), score(&key, &other_bass));
}

#[test]
fn reversing_the_steps_of_a_solution_keeps_its_score() {
    let key = c_major();
    let forwards = Solution {
        soprano: vec![note(Alphabet::G, 4), note(Alphabet::D, 4), note(Alphabet::G, 4)],
        alto: vec![note(Alphabet::E, 4), note(Alphabet::B, 5), note(Alphabet::E, 4)],
        tenor: vec![note(Alphabet::C, 4), note(Alphabet::G, 4), note(Alphabet::C, 4)],
        bass: vec![note(Alphabet::C, 4), note(Alphabet::G, 4), note(Alphabet::C, 4)],
    };
    let backwards = Solution {
        soprano: forwards.soprano.iter().rev().copied().collect(),
        alto: forwards.alto.iter().rev().copied().collect(),
        tenor: forwards.tenor.iter().rev().copied().collect(),
        bass: forwards.bass.iter().rev().copied().collect(),
    };
    assert_eq!(score(&key, &forwards), score(&key, &backwards));
}

#[test]
fn zero_cost_exactly_when_upper_voices_hold_their_degrees() {
    let key = c_major();
    let held = Solution {
        soprano: vec![note(Alphabet::G, 4), note(Alphabet::G, 4)],
        alto: vec![note(Alphabet::E, 4), note(Alphabet::E, 4)],
        tenor: vec![note(Alphabet::C, 4), note(Alphabet::C, 4)],
        bass: vec![note(Alphabet::C, 4), note(Alphabet::G, 4)],
    };
    assert_eq!(score(&key, &held), 0);
    // An octave leap keeps the scale degree, so it still costs nothing.
    let leap = Solution {
        soprano: vec![note(Alphabet::G, 4), note(Alphabet::G, 5)],
        alto: vec![note(Alphabet::E, 4), note(Alphabet::E, 4)],
        tenor: vec![note(Alphabet::C, 4), note(Alphabet::C, 4)],
        bass: vec![note(Alphabet::C, 4), note(Alphabet::C, 4)],
    };
    assert_eq!(score(&key, &leap), 0);
    // One voice changing degree costs exactly one.
    let step = Solution {
        soprano: vec![note(Alphabet::C, 4), note(Alphabet::D, 4)],
        alto: vec![note(Alphabet::E, 4), note(Alphabet::E, 4)],
        tenor: vec![note(Alphabet::G, 4), note(Alphabet::G, 4)],
        bass: vec![note(Alphabet::C, 4), note(Alphabet::C, 4)],
    };
    assert_eq!(score(&key, &step), 1);
}

#[test]
fn chromatic_notes_resolve_by_raising() {
    // C-sharp is not in C major; raised one half-step it lands on D, the
    // second degree, so moving from C-sharp to D counts as no movement.
    let key = c_major();
    let solution = Solution {
        soprano: vec![
            Note::new(Alphabet::C, Accidental::Sharp, 4),
            note(Alphabet::D, 4),
        ],
        alto: vec![note(Alphabet::E, 4), note(Alphabet::E, 4)],
        tenor: vec![note(Alphabet::G, 4), note(Alphabet::G, 4)],
        bass: vec![note(Alphabet::C, 4), note(Alphabet::C, 4)],
    };
    assert_eq!(score(&key, &solution), 0);
}

#[test]
fn seventh_chords_search_only_their_upper_tones() {
    // A seventh chord realizes to four notes; the pool drops the bass, so
    // a single-step progression still yields six permutations.
    let key = c_major();
    let progression = vec![RomanNumeral::seventh_chord(
        5,
        Tonality::Major,
        Inversion::root(),
    )];
    let solutions = enumerate(&key, &progression).unwrap();
    assert_eq!(solutions.len(), 6);
    // The first chord tone is the bass and is not offered as the first
    // candidate's soprano; the remaining three tones fill the upper voices.
    for s in &solutions {
        assert_eq!(s.bass[0], note(Alphabet::G, 4));
    }
    let first = &solutions[0];
    assert_eq!(first.soprano[0], Note::new(Alphabet::B, Accidental::Natural, 5));
    assert_eq!(first.alto[0], note(Alphabet::D, 4));
}

#[test]
fn enumeration_order_breaks_ties_towards_the_first() {
    // All six solutions of a one-chord progression cost zero, so the
    // selector must return the first one enumerated: the identity
    // permutation of the pool [C, E, G].
    let key = c_major();
    let progression = vec![RomanNumeral::major_chord(1, Inversion::root())];
    let chosen = solve(&key, &progression).unwrap();
    assert_eq!(chosen.soprano, vec![note(Alphabet::C, 4)]);
    assert_eq!(chosen.alto, vec![note(Alphabet::E, 4)]);
    assert_eq!(chosen.tenor, vec![note(Alphabet::G, 4)]);
    assert_eq!(chosen.bass, vec![note(Alphabet::C, 4)]);
}
