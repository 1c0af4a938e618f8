use vstd::prelude::*;
use vstd::string::StrSliceExecFns;
use vstd::string::StringSliceAdditionalSpecFns;
use vstd::string::StringExecFns;

use crate::chord::Chord;
use crate::clef::Clef;
use crate::duration::Duration;
use crate::ident::{entry_index, fresh_u128};
use crate::key_signature::KeySignature;
use crate::note::Note;
use crate::time::{BeatFraction, Measure};
use crate::time_signature::TimeSignature;

verus! {

/// A modifier applied to a single voice item: an accent, a staccato, a
/// dynamic such as forte, or a textual direction such as dolce. Markings
/// that extend over several items belong in [`ExtendedModifier`].
#[derive(Clone, Debug)]
pub struct Modifier {
    pub identifier: String,
    pub name: String,
    pub data: Vec<u8>,
}

impl Modifier {
    pub fn new(identifier: String, name: String, data: Vec<u8>) -> (r: Self)
        ensures
            r.identifier == identifier,
            r.name == name,
            r.data == data,
    {
        Self { identifier, name, data }
    }

    /// A dynamic marking such as forte or piano (not a crescendo, which
    /// extends over several items).
    pub fn dynamic(name: &str) -> (r: Self)
        ensures
            r.identifier@ == "dynamic"@,
            r.name@ == "Dynamic"@,
            r.data@ == name.spec_bytes(),
    {
        Self::new(
            String::from_str("dynamic"),
            String::from_str("Dynamic"),
            name.as_bytes_vec(),
        )
    }

    /// A textual direction such as dolce (not lyrics, and not a tempo
    /// indication such as ritardando).
    pub fn text(text: &str) -> (r: Self)
        ensures
            r.identifier@ == "text"@,
            r.name@ == "Text"@,
            r.data@ == text.spec_bytes(),
    {
        Self::new(String::from_str("text"), String::from_str("Text"), text.as_bytes_vec())
    }
}

/// A marking that extends over several items, such as a crescendo.
#[derive(Clone, Debug)]
pub struct ExtendedModifier {
    pub identifier: String,
    pub name: String,
    pub data: Vec<u8>,
}

/// What a timed voice item holds.
#[derive(Clone, Debug)]
pub enum InnerTimedVoiceItem {
    Chord(Chord),
    Note(Note),
    Rest,
}

/// A note, chord or rest with a duration and an anchor.
#[derive(Clone, Debug)]
pub struct TimedVoiceItem {
    pub inner: InnerTimedVoiceItem,
    pub duration: Duration,
    pub modifiers: Vec<Modifier>,
    /// The beat fraction this item is anchored to. It should not exceed
    /// the time signature, since the item is implied to be in the measure.
    pub anchor: BeatFraction,
}

/// One event on a voice's timeline.
#[derive(Clone, Debug)]
#[non_exhaustive]
pub enum VoiceItem {
    /// A note, chord, or rest with a duration and anchor.
    Timed(TimedVoiceItem),
    /// Key signature change at the start of the measure.
    KeySignature(KeySignature),
    /// Time signature change at the start of the measure.
    TimeSignature(TimeSignature),
    /// Clef change at the start of the measure.
    Clef(Clef),
    /// Mark start of measure.
    StartMeasure(Measure),
    /// Mark end of measure.
    EndMeasure(Measure),
    /// Start repeat at start of current measure.
    StartRepeat(Measure),
    /// End the repeat at the end of measure.
    EndRepeat,
    /// End piece after measure.
    End(Measure),
    /// Start of a modifier.
    StartExtendedModifier(ExtendedModifier),
    /// End of a modifier.
    EndExtendedModifier(u64),
}

#[verifier::external_type_specification]
#[verifier::external_body]
#[verifier::reject_recursive_types(K)]
#[verifier::reject_recursive_types(V)]
#[verifier::reject_recursive_types(S)]
pub struct ExIndexMap<K, V, S>(indexmap::IndexMap<K, V, S>);

/// What a voice's item map holds: its entries, keyed and in insertion
/// order.
pub uninterp spec fn voice_entries(
    m: indexmap::IndexMap<u128, VoiceItem, std::collections::hash_map::RandomState>,
) -> Seq<(u128, VoiceItem)>;

/// Relies on indexmap's IndexMap::new: a map with no entries.
#[verifier::external_body]
fn voice_map_new() -> (r: indexmap::IndexMap<
    u128,
    VoiceItem,
    std::collections::hash_map::RandomState,
>)
    ensures
        voice_entries(r) == Seq::<(u128, VoiceItem)>::empty(),
{
    indexmap::IndexMap::new()
}

/// Relies on indexmap's IndexMap::insert: an existing key keeps its place
/// and has its value replaced, the old value returned; a new key is
/// appended last with nothing returned.
#[verifier::external_body]
fn voice_map_insert(
    m: &mut indexmap::IndexMap<u128, VoiceItem, std::collections::hash_map::RandomState>,
    k: u128,
    v: VoiceItem,
) -> (r: Option<VoiceItem>)
    ensures
        match entry_index(voice_entries(*old(m)), k) {
            Some(i) => {
                &&& voice_entries(*final(m)) == voice_entries(*old(m)).update(i, (k, v))
                &&& r matches Some(prev) && prev == voice_entries(*old(m))[i].1
            },
            None => {
                &&& voice_entries(*final(m)) == voice_entries(*old(m)).push((k, v))
                &&& r is None
            },
        },
{
    m.insert(k, v)
}

/// Relies on indexmap's IndexMap::shift_remove: the keyed entry is removed
/// and the entries after it shift down one place; a missing key changes
/// nothing.
#[verifier::external_body]
fn voice_map_shift_remove(
    m: &mut indexmap::IndexMap<u128, VoiceItem, std::collections::hash_map::RandomState>,
    k: u128,
) -> (r: Option<VoiceItem>)
    ensures
        match entry_index(voice_entries(*old(m)), k) {
            Some(i) => {
                &&& voice_entries(*final(m)) == voice_entries(*old(m)).remove(i)
                &&& r matches Some(prev) && prev == voice_entries(*old(m))[i].1
            },
            None => {
                &&& voice_entries(*final(m)) == voice_entries(*old(m))
                &&& r is None
            },
        },
{
    m.shift_remove(&k)
}

/// Relies on indexmap's IndexMap::get: the value of the keyed entry.
#[verifier::external_body]
fn voice_map_get<'a>(
    m: &'a indexmap::IndexMap<u128, VoiceItem, std::collections::hash_map::RandomState>,
    k: u128,
) -> (r: Option<&'a VoiceItem>)
    ensures
        match entry_index(voice_entries(*m), k) {
            Some(i) => r matches Some(item) && *item == voice_entries(*m)[i].1,
            None => r is None,
        },
{
    m.get(&k)
}

/// Relies on indexmap's IndexMap::len: the number of entries.
#[verifier::external_body]
fn voice_map_len(
    m: &indexmap::IndexMap<u128, VoiceItem, std::collections::hash_map::RandomState>,
) -> (r: usize)
    ensures
        r == voice_entries(*m).len(),
{
    m.len()
}

/// Relies on indexmap's IndexMap::get_index: the entry at a position of
/// the insertion order.
#[verifier::external_body]
fn voice_map_get_index<'a>(
    m: &'a indexmap::IndexMap<u128, VoiceItem, std::collections::hash_map::RandomState>,
    index: usize,
) -> (r: Option<(&'a u128, &'a VoiceItem)>)
    ensures
        if index < voice_entries(*m).len() {
            r matches Some(p) && *p.0 == voice_entries(*m)[index as int].0 && *p.1
                == voice_entries(*m)[index as int].1
        } else {
            r is None
        },
{
    m.get_index(index)
}

/// A voice: a timeline of voice items in insertion order, each under an
/// identifying key.
pub struct Voice {
    pub(crate) items: indexmap::IndexMap<
        u128,
        VoiceItem,
        std::collections::hash_map::RandomState,
    >,
}

impl View for Voice {
    type V = Seq<(u128, VoiceItem)>;

    closed spec fn view(&self) -> Seq<(u128, VoiceItem)> {
        voice_entries(self.items)
    }
}

impl Voice {
    pub fn new() -> (r: Self)
        ensures
            r@ == Seq::<(u128, VoiceItem)>::empty(),
    {
        Self { items: voice_map_new() }
    }

    /// Appends `item` under a freshly generated random key. Should the
    /// fresh key collide with an existing one, that entry is replaced in
    /// place instead.
    pub fn push(&mut self, item: VoiceItem)
        ensures
            exists|k: u128|
                #![trigger entry_index(old(self)@, k)]
                final(self)@ == match entry_index(old(self)@, k) {
                    Some(i) => old(self)@.update(i, (k, item)),
                    None => old(self)@.push((k, item)),
                },
    {
        let k = fresh_u128();
        let ghost prior = self@;
        let _ = voice_map_insert(&mut self.items, k, item);
        proof {
            assert(final(self)@ == match entry_index(prior, k) {
                Some(i) => prior.update(i, (k, item)),
                None => prior.push((k, item)),
            });
        }
    }

    /// Inserts `item` under the key `index`: appended when the key is new,
    /// replacing in place when it exists.
    pub fn insert(&mut self, index: usize, item: VoiceItem)
        ensures
            final(self)@ == match entry_index(old(self)@, index as u128) {
                Some(i) => old(self)@.update(i, (index as u128, item)),
                None => old(self)@.push((index as u128, item)),
            },
    {
        let _ = voice_map_insert(&mut self.items, index as u128, item);
    }

    /// Removes the item keyed `index`, shifting later items down; a
    /// missing key changes nothing.
    pub fn remove(&mut self, index: usize)
        ensures
            final(self)@ == match entry_index(old(self)@, index as u128) {
                Some(i) => old(self)@.remove(i),
                None => old(self)@,
            },
    {
        let _ = voice_map_shift_remove(&mut self.items, index as u128);
    }

    /// The item keyed `index`, or `None` when no item has that key.
    pub fn get(&self, index: usize) -> (r: Option<&VoiceItem>)
        ensures
            match entry_index(self@, index as u128) {
                Some(i) => r matches Some(item) && *item == self@[i].1,
                None => r is None,
            },
    {
        voice_map_get(&self.items, index as u128)
    }

    /// The number of items in the voice.
    pub fn len(&self) -> (r: usize)
        ensures
            r == self@.len(),
    {
        voice_map_len(&self.items)
    }

    /// Whether the voice holds no items.
    pub fn is_empty(&self) -> (r: bool)
        ensures
            r == (self@.len() == 0),
    {
        self.len() == 0
    }

    /// The item at position `index` of the insertion order.
    pub fn get_id(&self, index: usize) -> (r: Option<&VoiceItem>)
        ensures
            if index < self@.len() {
                r matches Some(item) && *item == self@[index as int].1
            } else {
                r is None
            },
    {
        match voice_map_get_index(&self.items, index) {
            Some((_, d)) => Some(d),
            None => None,
        }
    }
}

impl Default for Voice {
    fn default() -> (r: Self)
        ensures
            r@ == Seq::<(u128, VoiceItem)>::empty(),
    {
        Self::new()
    }
}

} // verus!
