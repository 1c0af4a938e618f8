use vstd::prelude::*;

use crate::chord::Chord;
use crate::duration::Duration;
use crate::ident::{entry_index, fresh_u128};
use crate::key_signature::KeySignature;
use crate::note::Note;
use crate::time::{BeatFraction, Measure};
use crate::time_signature::TimeSignature;

verus! {

/// A modifier applied to a single phrase item: an accent, a staccato, a
/// dynamic such as forte, or a textual direction such as dolce. Markings
/// that extend over several items belong in [`ExtendedModifier`].
#[derive(Clone, Debug)]
pub struct Modifier {
    pub identifier: String,
    pub name: String,
    pub data: Vec<u8>,
}

/// A marking that extends over several items, such as a crescendo.
#[derive(Clone, Debug)]
pub struct ExtendedModifier {
    pub identifier: String,
    pub name: String,
    pub data: Vec<u8>,
}

/// What a timed phrase item holds.
#[derive(Clone, Debug)]
pub enum InnerTimedPhraseItem {
    Chord(Chord),
    Note(Note),
    Rest,
}

/// A note, chord or rest with a duration and an anchor.
#[derive(Clone, Debug)]
pub struct TimedPhraseItem {
    pub inner: InnerTimedPhraseItem,
    pub duration: Duration,
    pub modifiers: Vec<Modifier>,
    pub anchor: BeatFraction,
}

/// One event on a phrase's timeline.
#[derive(Clone, Debug)]
#[non_exhaustive]
pub enum PhraseItem {
    /// A note, chord, or rest with a duration and anchor.
    Timed(TimedPhraseItem),
    /// Key signature change at the start of the measure.
    KeySignature(KeySignature),
    /// Time signature change at the start of the measure.
    TimeSignature(TimeSignature, Measure),
    /// Start measure.
    Barline(Measure),
    /// Which measure to start the repeat at.
    StartRepeat(Measure),
    /// Which measure to end the repeat at.
    EndRepeat(Measure),
    /// Which measure to end the piece at.
    End(Measure),
    /// Start of a modifier.
    StartExtendedModifier(ExtendedModifier),
    /// End of a modifier.
    EndExtendedModifier(u64),
}

/// What a phrase's item map holds: its entries, keyed and in insertion
/// order.
pub uninterp spec fn phrase_entries(
    m: indexmap::IndexMap<u128, PhraseItem, std::collections::hash_map::RandomState>,
) -> Seq<(u128, PhraseItem)>;

/// Relies on indexmap's IndexMap::new: a map with no entries.
#[verifier::external_body]
fn phrase_map_new() -> (r: indexmap::IndexMap<
    u128,
    PhraseItem,
    std::collections::hash_map::RandomState,
>)
    ensures
        phrase_entries(r) == Seq::<(u128, PhraseItem)>::empty(),
{
    indexmap::IndexMap::new()
}

/// Relies on indexmap's IndexMap::insert: an existing key keeps its place
/// and has its value replaced, the old value returned; a new key is
/// appended last with nothing returned.
#[verifier::external_body]
fn phrase_map_insert(
    m: &mut indexmap::IndexMap<u128, PhraseItem, std::collections::hash_map::RandomState>,
    k: u128,
    v: PhraseItem,
) -> (r: Option<PhraseItem>)
    ensures
        match entry_index(phrase_entries(*old(m)), k) {
            Some(i) => {
                &&& phrase_entries(*final(m)) == phrase_entries(*old(m)).update(i, (k, v))
                &&& r matches Some(prev) && prev == phrase_entries(*old(m))[i].1
            },
            None => {
                &&& phrase_entries(*final(m)) == phrase_entries(*old(m)).push((k, v))
                &&& r is None
            },
        },
{
    m.insert(k, v)
}

/// Relies on indexmap's IndexMap::shift_remove: the keyed entry is removed
/// and the entries after it shift down one place; a missing key changes
/// nothing.
#[verifier::external_body]
fn phrase_map_shift_remove(
    m: &mut indexmap::IndexMap<u128, PhraseItem, std::collections::hash_map::RandomState>,
    k: u128,
) -> (r: Option<PhraseItem>)
    ensures
        match entry_index(phrase_entries(*old(m)), k) {
            Some(i) => {
                &&& phrase_entries(*final(m)) == phrase_entries(*old(m)).remove(i)
                &&& r matches Some(prev) && prev == phrase_entries(*old(m))[i].1
            },
            None => {
                &&& phrase_entries(*final(m)) == phrase_entries(*old(m))
                &&& r is None
            },
        },
{
    m.shift_remove(&k)
}

/// Relies on indexmap's IndexMap::get: the value of the keyed entry.
#[verifier::external_body]
fn phrase_map_get<'a>(
    m: &'a indexmap::IndexMap<u128, PhraseItem, std::collections::hash_map::RandomState>,
    k: u128,
) -> (r: Option<&'a PhraseItem>)
    ensures
        match entry_index(phrase_entries(*m), k) {
            Some(i) => r matches Some(item) && *item == phrase_entries(*m)[i].1,
            None => r is None,
        },
{
    m.get(&k)
}

/// Relies on indexmap's IndexMap::len: the number of entries.
#[verifier::external_body]
fn phrase_map_len(
    m: &indexmap::IndexMap<u128, PhraseItem, std::collections::hash_map::RandomState>,
) -> (r: usize)
    ensures
        r == phrase_entries(*m).len(),
{
    m.len()
}

/// Relies on indexmap's IndexMap::get_index: the entry at a position of
/// the insertion order.
#[verifier::external_body]
fn phrase_map_get_index<'a>(
    m: &'a indexmap::IndexMap<u128, PhraseItem, std::collections::hash_map::RandomState>,
    index: usize,
) -> (r: Option<(&'a u128, &'a PhraseItem)>)
    ensures
        if index < phrase_entries(*m).len() {
            r matches Some(p) && *p.0 == phrase_entries(*m)[index as int].0 && *p.1
                == phrase_entries(*m)[index as int].1
        } else {
            r is None
        },
{
    m.get_index(index)
}

/// A phrase: a timeline of phrase items in insertion order, each under an
/// identifying key.
pub struct Phrase {
    pub(crate) items: indexmap::IndexMap<
        u128,
        PhraseItem,
        std::collections::hash_map::RandomState,
    >,
}

impl View for Phrase {
    type V = Seq<(u128, PhraseItem)>;

    closed spec fn view(&self) -> Seq<(u128, PhraseItem)> {
        phrase_entries(self.items)
    }
}

impl Phrase {
    pub fn new() -> (r: Self)
        ensures
            r@ == Seq::<(u128, PhraseItem)>::empty(),
    {
        Self { items: phrase_map_new() }
    }

    /// Appends `item` under a freshly generated random key. Should the
    /// fresh key collide with an existing one, that entry is replaced in
    /// place instead.
    pub fn push(&mut self, item: PhraseItem)
        ensures
            exists|k: u128|
                #![trigger entry_index(old(self)@, k)]
                final(self)@ == match entry_index(old(self)@, k) {
                    Some(i) => old(self)@.update(i, (k, item)),
                    None => old(self)@.push((k, item)),
                },
    {
        let k = fresh_u128();
        let ghost prior = self@;
        let _ = phrase_map_insert(&mut self.items, k, item);
        proof {
            assert(final(self)@ == match entry_index(prior, k) {
                Some(i) => prior.update(i, (k, item)),
                None => prior.push((k, item)),
            });
        }
    }

    /// Inserts `item` under the key `index`: appended when the key is new,
    /// replacing in place when it exists.
    pub fn insert(&mut self, index: usize, item: PhraseItem)
        ensures
            final(self)@ == match entry_index(old(self)@, index as u128) {
                Some(i) => old(self)@.update(i, (index as u128, item)),
                None => old(self)@.push((index as u128, item)),
            },
    {
        let _ = phrase_map_insert(&mut self.items, index as u128, item);
    }

    /// Removes the item keyed `index`, shifting later items down; a
    /// missing key changes nothing.
    pub fn remove(&mut self, index: usize)
        ensures
            final(self)@ == match entry_index(old(self)@, index as u128) {
                Some(i) => old(self)@.remove(i),
                None => old(self)@,
            },
    {
        let _ = phrase_map_shift_remove(&mut self.items, index as u128);
    }

    /// The item keyed `index`, or `None` when no item has that key.
    pub fn get(&self, index: usize) -> (r: Option<&PhraseItem>)
        ensures
            match entry_index(self@, index as u128) {
                Some(i) => r matches Some(item) && *item == self@[i].1,
                None => r is None,
            },
    {
        phrase_map_get(&self.items, index as u128)
    }

    /// The number of items in the phrase.
    pub fn len(&self) -> (r: usize)
        ensures
            r == self@.len(),
    {
        phrase_map_len(&self.items)
    }

    /// The item at position `index` of the insertion order.
    pub fn get_id(&self, index: usize) -> (r: Option<&PhraseItem>)
        ensures
            if index < self@.len() {
                r matches Some(item) && *item == self@[index as int].1
            } else {
                r is None
            },
    {
        match phrase_map_get_index(&self.items, index) {
            Some((_, d)) => Some(d),
            None => None,
        }
    }
}

impl Default for Phrase {
    fn default() -> (r: Self)
        ensures
            r@ == Seq::<(u128, PhraseItem)>::empty(),
    {
        Self::new()
    }
}

} // verus!
