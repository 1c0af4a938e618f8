//! A music-notation library centred on a verified four-part voice-leading
//! solver: notes, keys, scales, chords and roman numerals, together with the
//! enumerator, cost model and selector that pick the smoothest voicing of a
//! chord progression.

pub mod accidental;
pub mod alphabet;
pub mod chord;
pub mod clef;
pub mod duration;
pub mod ident;
pub mod interval;
pub mod key;
pub mod key_signature;
pub mod measure;
pub mod midi;
pub mod note;
pub mod phrase;
pub mod pitch;
pub mod rest;
pub mod roman_numeral;
pub mod scale_degree;
pub mod score;
pub mod solfege;
pub mod time;
pub mod time_signature;
pub mod tonality;
pub mod voice;
pub mod voice_leading;

pub use accidental::Accidental;
pub use alphabet::Alphabet;
pub use clef::Clef;
pub use interval::Interval;
pub use key_signature::KeySignature;
pub use note::Note;
pub use rest::Rest;
pub use scale_degree::ScaleDegree;
pub use time_signature::TimeSignature;
pub use tonality::Tonality;
pub use voice_leading::{Solution, SolveError};
