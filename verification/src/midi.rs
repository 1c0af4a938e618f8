//! The MIDI face of the library: conversions of notes and time signatures
//! into the `midi_file` crate's core types. The numeric codes handed across
//! are computed and specified here; only the final construction of the
//! outside types is trusted.

use vstd::prelude::*;

use crate::note::Note;
use crate::time_signature::TimeSignature;

verus! {

#[verifier::external_type_specification]
#[verifier::external_body]
pub struct ExNoteNumber(midi_file::core::NoteNumber);

#[verifier::external_type_specification]
#[verifier::external_body]
pub struct ExClocks(midi_file::core::Clocks);

#[verifier::external_type_specification]
#[verifier::external_body]
pub struct ExDurationName(midi_file::core::DurationName);

/// Relies on midi_file's NoteNumber::new, which wraps a note number and
/// clamps it to the 7-bit range 0..=127.
#[verifier::external_body]
fn note_number_new(v: u8) -> midi_file::core::NoteNumber {
    midi_file::core::NoteNumber::new(v)
}

/// Relies on midi_file's Clocks::new, which picks the named variant for a
/// standard MIDI clock count and falls back to `Other` for any other count.
#[verifier::external_body]
fn clocks_new(v: u8) -> midi_file::core::Clocks {
    midi_file::core::Clocks::new(v)
}

/// Relies on midi_file's DurationName::try_from, which accepts exactly the
/// codes 0 through 10, one per power-of-two denominator.
#[verifier::external_body]
fn duration_name_from(v: u8) -> midi_file::core::DurationName
    requires
        v <= 10,
{
    midi_file::core::DurationName::try_from(v).unwrap()
}

impl Note {
    /// The MIDI note number of this note: 69 is A4.
    pub open spec fn midi_number_spec(self) -> int {
        self.id_spec() + 69
    }

    /// The MIDI note number of this note as a byte.
    pub fn midi_number(&self) -> (r: u8)
        requires
            self.midi_number_spec() <= 255,
        ensures
            r as int == self.midi_number_spec(),
    {
        let id = self.id();
        (id.0 + 69) as u8
    }

    /// The note as a `midi_file` note number.
    pub fn to_midi(&self) -> midi_file::core::NoteNumber
        requires
            self.midi_number_spec() <= 255,
    {
        note_number_new(self.midi_number())
    }
}

impl TimeSignature {
    /// The beat values that have a MIDI denominator name: whole through
    /// sixteenth.
    pub open spec fn midi_denominator_ok(self) -> bool {
        self.beat_value == 1 || self.beat_value == 2 || self.beat_value == 4 || self.beat_value
            == 8 || self.beat_value == 16
    }

    /// The MIDI denominator code: the power of two of the beat value.
    pub open spec fn denominator_code_spec(self) -> int {
        if self.beat_value == 1 {
            0
        } else if self.beat_value == 2 {
            1
        } else if self.beat_value == 4 {
            2
        } else if self.beat_value == 8 {
            3
        } else {
            4
        }
    }

    /// The MIDI denominator code of the beat value.
    pub fn denominator_code(&self) -> (r: u8)
        requires
            self.midi_denominator_ok(),
        ensures
            r as int == self.denominator_code_spec(),
    {
        match self.beat_value {
            1 => 0,
            2 => 1,
            4 => 2,
            8 => 3,
            _ => 4,
        }
    }

    /// The beat value as a `midi_file` denominator name.
    pub fn denominator_to_midi(&self) -> midi_file::core::DurationName
        requires
            self.midi_denominator_ok(),
    {
        duration_name_from(self.denominator_code())
    }

    /// The beat values whose metronome click has a MIDI clock count: the
    /// dotted half down to the dotted sixteenth for compound signatures,
    /// the whole down to the sixteenth for simple ones.
    pub open spec fn midi_clocks_ok(self) -> bool {
        if self.notes % 3 == 0 {
            self.beat_value == 2 || self.beat_value == 4 || self.beat_value == 8 || self.beat_value
                == 16 || self.beat_value == 32
        } else {
            self.beat_value == 1 || self.beat_value == 2 || self.beat_value == 4 || self.beat_value
                == 8 || self.beat_value == 16
        }
    }

    /// The MIDI clock count of one metronome click: a dotted note of the
    /// next-larger value for compound signatures, the beat value itself for
    /// simple ones, at 96 clocks to the whole note.
    pub open spec fn clock_count_spec(self) -> int {
        if self.notes % 3 == 0 {
            288int / self.beat_value as int
        } else {
            96int / self.beat_value as int
        }
    }

    /// The MIDI clock count of one metronome click.
    pub fn clock_count(&self) -> (r: u8)
        requires
            self.midi_clocks_ok(),
        ensures
            r as int == self.clock_count_spec(),
    {
        if self.is_compound() {
            match self.beat_value {
                2 => 144,
                4 => 72,
                8 => 36,
                16 => 18,
                _ => 9,
            }
        } else {
            match self.beat_value {
                1 => 96,
                2 => 48,
                4 => 24,
                8 => 12,
                _ => 6,
            }
        }
    }

    /// The metronome click as a `midi_file` clock count.
    pub fn midi_clicks(&self) -> midi_file::core::Clocks
        requires
            self.midi_clocks_ok(),
    {
        clocks_new(self.clock_count())
    }
}

} // verus!
