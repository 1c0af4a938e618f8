use vstd::prelude::*;

use crate::chord::Chord;
use crate::note::Note;

verus! {

/// An RGBA colour attached to a notation element.
#[derive(Debug, Clone, Copy, PartialEq, Eq, Structural)]
pub struct Color {
    pub red: u8,
    pub green: u8,
    pub blue: u8,
    pub alpha: u8,
}

/// Whether an element is printed above or below the staff.
#[derive(Debug, Clone, Copy, PartialEq, Eq, Structural)]
pub enum Placement {
    Above,
    Below,
}

/// The articulations that can mark a note.
#[derive(Debug, Clone, PartialEq)]
pub enum ArticulationType {
    Accent,
    StrongAccent,
    Staccato,
    Tenuto,
    DetachedLegato,
    Staccatissimo,
    Spiccato,
    Scoop,
    Plop,
    DoIt,
    FallOff,
    BreathMark,
    Caesura,
    Stress,
    Unstress,
    SoftAccent,
    OtherArticulation { smufl: Option<String>, text: String },
}

/// The ornaments that can decorate a note.
#[derive(Debug, Clone, Copy, PartialEq, Eq, Structural)]
pub enum OrnamentType {
    TrillMark,
    Turn,
    DelayedTurn,
    InvertedTurn,
    DelayedInvertedTurn,
    VerticalTurn,
    Shake,
    WavyLine,
    Mordent,
    InvertedMordent,
    Schleifer,
    Tremolo,
    OtherOrnament,
}

/// A dynamic marking.
#[derive(Debug, Clone, PartialEq)]
pub enum Dynamic {
    P,
    PP,
    PPP,
    PPPP,
    PPPPP,
    PPPPPP,
    F,
    FF,
    FFF,
    FFFF,
    FFFFF,
    FFFFFF,
    MP,
    MF,
    SF,
    SFP,
    SFPP,
    FP,
    RF,
    RFZ,
    SFZ,
    SFFZ,
    FZ,
    N,
    PF,
    SFZP,
    OtherDynamics { glyph_name: String },
}

/// A tie between two notes.
#[derive(Debug, Clone, Copy, PartialEq, Eq, Structural)]
pub struct Tied {
}

/// A slur over a run of notes.
#[derive(Debug, Clone, Copy, PartialEq, Eq, Structural)]
pub struct Slur {
}

/// A notation that spans a range of notes, marked by where it starts and
/// stops.
#[derive(Debug, Clone, PartialEq)]
pub enum ExtendedNotation<T> {
    Start { placement: Placement, id: u16, details: T },
    Stop(u16),
}

/// A spanning notation that may also be continued across systems.
#[derive(Debug, Clone, PartialEq)]
pub enum MultiExtendedNotation<T> {
    Start { placement: Placement, id: u16, details: T },
    Stop(u16),
    Continue(u16),
}

/// The technical marks that can be attached to a note.
#[derive(Debug, Clone, Copy, PartialEq, Eq, Structural)]
pub enum TechnicalType {
    UpBow,
    DownBow,
    Harmonic,
    OpenString,
    ThumbPosition,
    Fingering,
    Pluck,
    DoubleTongue,
    TripleTongue,
    Stopped,
    SnapPizzicato,
    Fret,
    String,
    HammerOn,
    PullOff,
    Bend,
    Tap,
    Heel,
    Toe,
    Fingernails,
    Hole,
    Arrow,
    Handbell,
    BrassBend,
    Flip,
    Smear,
    Open,
    HalfMuted,
    HarmonMute,
    Golpe,
    OtherTechnical,
}

/// The kinds of direction that can stand over a measure.
#[derive(Debug, Clone, PartialEq)]
pub enum DirectionType {
    Rehearsal,
    Segno,
    Coda,
    Words { text: String },
    Symbol,
    Wedge,
    Dynamics(Dynamic),
    Dashes,
    Bracket,
    Pedal,
    Metronome,
    OctaveShift,
    HarpPedals,
    Damp,
    DampAll,
    Eyeglasses,
    StringMute,
    Scordatura,
    Image { source: String },
    PrincipalVoice,
    Percussion,
    AccordionRegistration,
    StaffDivide,
    OtherDirection,
}

/// What a timed measure item holds.
#[derive(Debug, Clone, PartialEq)]
pub enum TimedMeasureItemInner {
    Note(Note),
    Chord(Chord),
    Rest,
    Forward,
    Backward,
    Barline,
}

/// A tuplet-style modification of written time.
#[derive(Debug, Clone, Copy, PartialEq, Eq, Structural)]
pub struct TimeModification {
    pub actual_notes: u8,
    pub normal_notes: u8,
}

} // verus!
