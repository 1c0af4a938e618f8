use vstd::prelude::*;

use crate::key::{major_signature_spec, minor_signature_spec, scale_spec, Key, Scale};
use crate::note::Note;
use crate::roman_numeral::RomanNumeral;
use crate::tonality::Tonality;
use crate::scale_degree::{first_class_index, lemma_first_class_index};

verus! {

/// Why a solve failed.
#[derive(Copy, Clone, Debug, PartialEq, Eq, Structural)]
pub enum SolveError {
    /// The progression was empty.
    InvalidProgression,
    /// Enumeration produced no candidate solutions.
    NoSolutions,
    /// The key and root cannot produce a valid diatonic scale.
    UnresolvableKey,
}

/// One complete four-voice setting of a progression: one note per voice per
/// step. The bass line is fixed by the progression; the upper three voices
/// are searched.
#[derive(Debug)]
pub struct Solution {
    pub soprano: Vec<Note>,
    pub alto: Vec<Note>,
    pub tenor: Vec<Note>,
    pub bass: Vec<Note>,
}

/// The mathematical shadow of a [`Solution`]: its four voices as sequences.
pub struct SolutionView {
    pub soprano: Seq<Note>,
    pub alto: Seq<Note>,
    pub tenor: Seq<Note>,
    pub bass: Seq<Note>,
}

impl View for Solution {
    type V = SolutionView;

    open spec fn view(&self) -> SolutionView {
        SolutionView {
            soprano: self.soprano@,
            alto: self.alto@,
            tenor: self.tenor@,
            bass: self.bass@,
        }
    }
}

impl SolutionView {
    /// All four voices have one note per step of a progression of `n` steps.
    pub open spec fn wf(self, n: int) -> bool {
        self.soprano.len() == n && self.alto.len() == n && self.tenor.len() == n
            && self.bass.len() == n
    }
}

/// Some note of `s` has pitch class `c`.
pub open spec fn contains_class(s: Seq<Note>, c: int) -> bool {
    exists|i: int| 0 <= i < s.len() && (#[trigger] s[i]).class_spec() == c
}

/// The number of half-step raises, starting from class `c` and counting from
/// `k`, needed before a class in `s` is hit; 12 when a full octave of raises
/// finds nothing.
pub open spec fn fallback_from(s: Seq<Note>, c: int, k: nat) -> nat
    decreases 12 - k,
{
    if k >= 12 {
        12
    } else if contains_class(s, (c + k) % 12) {
        k
    } else {
        fallback_from(s, c, (k + 1) as nat)
    }
}

/// The chromatic fallback of the scale-degree resolver: how many half-step
/// raises bring a note of class `c` onto some class of `s`.
pub open spec fn fallback_steps(s: Seq<Note>, c: int) -> nat {
    fallback_from(s, c, 0)
}

/// The 1-indexed scale degree that the resolver assigns to `n` against the
/// scale `s`: the first scale position whose class matches `n` raised by the
/// fewest half-steps that produce any match.
pub open spec fn resolved_degree(s: Seq<Note>, n: Note) -> int {
    let c = n.class_spec();
    let k = fallback_steps(s, c);
    first_class_index(s, (c + k) % 12).unwrap() + 1
}

/// The cost contributed by one adjacent pair within a voice: `min(d*d, 1)`
/// where `d` is the difference of the two resolved degrees, so 0 exactly
/// when the voice stays on its degree and 1 for any movement.
pub open spec fn move_penalty(s: Seq<Note>, a: Note, b: Note) -> int {
    if resolved_degree(s, a) == resolved_degree(s, b) {
        0
    } else {
        1
    }
}

/// The cost of one voice: the sum of the penalties of its adjacent pairs.
pub open spec fn voice_cost(s: Seq<Note>, v: Seq<Note>) -> int
    decreases v.len(),
{
    if v.len() < 2 {
        0
    } else {
        move_penalty(s, v[0], v[1]) + voice_cost(s, v.drop_first())
    }
}

/// The cost of a solution in `key`: the three upper voices' costs summed.
/// The bass voice is fixed by the progression and is not scored.
pub open spec fn solution_cost(key: Key, sol: SolutionView) -> int {
    let s = scale_spec(key);
    voice_cost(s, sol.soprano) + voice_cost(s, sol.alto) + voice_cost(s, sol.tenor)
}

/// A key whose scale the solver can build: a diatonic root octave that
/// leaves room for the scale's octave bump.
pub open spec fn key_wf(key: Key) -> bool {
    key matches Key::Diatonic { signature, root } ==> root.octave < 255
}

/// Raising by `(target - c) % 12` half-steps lands class `c` exactly on
/// `target`, so against a non-empty scale the chromatic fallback always
/// succeeds within one octave of raises.
proof fn lemma_fallback_succeeds(s: Seq<Note>, c: int)
    requires
        s.len() > 0,
        0 <= c < 12,
    ensures
        fallback_steps(s, c) < 12,
        contains_class(s, (c + fallback_steps(s, c)) % 12),
{
    let target = s[0].class_spec();
    assert(0 <= target < 12) by {
        assert(target == s[0].id_spec() % 12);
    }
    let k0 = if target >= c {
        target - c
    } else {
        target + 12 - c
    };
    assert((c + k0) % 12 == target);
    assert(contains_class(s, target));
    lemma_fallback_from_le(s, c, 0, k0 as nat);
}

/// When some raise count `k0` in range works, the fallback from any earlier
/// count stops at or before `k0`, and stops on a matching class.
proof fn lemma_fallback_from_le(s: Seq<Note>, c: int, k: nat, k0: nat)
    requires
        k <= k0 < 12,
        contains_class(s, (c + k0) % 12),
    ensures
        fallback_from(s, c, k) <= k0,
        contains_class(s, (c + fallback_from(s, c, k)) % 12),
    decreases k0 - k,
{
    if contains_class(s, (c + k) % 12) {
    } else {
        lemma_fallback_from_le(s, c, (k + 1) as nat, k0);
    }
}

/// Raise counts below `k` that match nothing do not change where the
/// fallback stops.
proof fn lemma_fallback_from_skip(s: Seq<Note>, c: int, k: nat)
    requires
        k <= 12,
        forall|k2: nat| k2 < k ==> !#[trigger] contains_class(s, (c + k2) % 12),
    ensures
        fallback_from(s, c, 0) == fallback_from(s, c, k),
    decreases k,
{
    if k == 0 {
    } else {
        lemma_fallback_from_skip(s, c, (k - 1) as nat);
        assert(!contains_class(s, (c + (k - 1)) % 12));
    }
}

/// The 1-indexed degree that the chromatic-fallback resolver assigns to
/// `note` against this scale. A note whose class is in the scale resolves
/// directly; any other note is raised a half-step at a time (at most eleven
/// times, which always suffices for a non-empty scale) until it matches.
pub fn resolve_degree(scale: &Scale, note: &Note) -> (d: u8)
    requires
        1 <= scale.notes@.len() <= 12,
    ensures
        d as int == resolved_degree(scale.notes@, *note),
        1 <= d <= scale.notes@.len(),
{
    let ghost s = scale.notes@;
    let c0: u8 = {
        let p = note.id().simple();
        p.0
    };
    proof {
        assert(c0 as int == note.class_spec());
        lemma_fallback_succeeds(s, c0 as int);
    }
    let len = scale.notes.len();
    let mut k: u8 = 0;
    while k < 12
        invariant
            1 <= len == s.len() <= 12,
            s == scale.notes@,
            k <= 12,
            c0 as int == note.class_spec(),
            0 <= c0 < 12,
            fallback_steps(s, c0 as int) < 12,
            contains_class(s, (c0 + fallback_steps(s, c0 as int)) % 12),
            forall|k2: nat| k2 < k ==> !#[trigger] contains_class(s, (c0 + k2) % 12),
        decreases 12 - k,
    {
        let c: u8 = (c0 + k) % 12;
        let mut j: usize = 0;
        while j < len
            invariant
                j <= len == s.len() <= 12,
                s == scale.notes@,
                k < 12,
                0 <= c0 < 12,
                c0 as int == note.class_spec(),
                c as int == (c0 + k) % 12,
                forall|k2: nat| k2 < k ==> !#[trigger] contains_class(s, (c0 + k2) % 12),
                forall|j2: int| 0 <= j2 < j ==> (#[trigger] s[j2]).class_spec() != c,
            decreases len - j,
        {
            let cj = scale.notes[j].id().simple();
            if cj.0 == c {
                proof {
                    assert(s[j as int].class_spec() == c as int);
                    assert(contains_class(s, (c0 + k) as int % 12));
                    lemma_fallback_from_skip(s, c0 as int, k as nat);
                    assert(fallback_from(s, c0 as int, k as nat) == k);
                    lemma_first_class_index(s, c as int, j as int);
                }
                return (j + 1) as u8;
            }
            j = j + 1;
        }
        proof {
            assert(!contains_class(s, (c0 + k) as int % 12));
            assert forall|k2: nat| k2 < k + 1 implies !#[trigger] contains_class(s, (c0 + k2) % 12) by {
                if k2 < k {
                } else {
                    assert(k2 == k);
                }
            }
        }
        k = k + 1;
    }
    proof {
        assert(!contains_class(s, (c0 + fallback_steps(s, c0 as int)) % 12));
    }
    unreached()
}

/// A voice of `n` notes has `n - 1` adjacent pairs, each costing at most 1.
proof fn lemma_voice_cost_bounds(s: Seq<Note>, v: Seq<Note>)
    ensures
        0 <= voice_cost(s, v),
        v.len() >= 1 ==> voice_cost(s, v) <= v.len() - 1,
        v.len() == 0 ==> voice_cost(s, v) == 0,
    decreases v.len(),
{
    if v.len() < 2 {
    } else {
        lemma_voice_cost_bounds(s, v.drop_first());
    }
}

/// Appending a note to a voice adds the penalty of the new final pair.
proof fn lemma_voice_cost_snoc(s: Seq<Note>, v: Seq<Note>)
    requires
        v.len() >= 2,
    ensures
        voice_cost(s, v) == voice_cost(s, v.drop_last()) + move_penalty(
            s,
            v[v.len() - 2],
            v[v.len() - 1],
        ),
    decreases v.len(),
{
    let n = v.len() as int;
    assert(voice_cost(s, v) == move_penalty(s, v[0], v[1]) + voice_cost(s, v.drop_first()));
    if n == 2 {
        assert(v.drop_last().len() == 1);
        assert(v.drop_first().len() == 1);
        assert(voice_cost(s, v.drop_first()) == 0);
        assert(voice_cost(s, v.drop_last()) == 0);
    } else {
        lemma_voice_cost_snoc(s, v.drop_first());
        assert(v.drop_first().len() == n - 1);
        assert(v.drop_first().drop_last() =~= v.drop_last().drop_first());
        assert(v.drop_first()[n - 3] == v[n - 2]);
        assert(v.drop_first()[n - 2] == v[n - 1]);
        assert(voice_cost(s, v.drop_first()) == voice_cost(s, v.drop_last().drop_first())
            + move_penalty(s, v[n - 2], v[n - 1]));
        assert(v.drop_last().len() == n - 1);
        assert(v.drop_last()[0] == v[0]);
        assert(v.drop_last()[1] == v[1]);
        assert(voice_cost(s, v.drop_last()) == move_penalty(s, v[0], v[1]) + voice_cost(
            s,
            v.drop_last().drop_first(),
        ));
    }
}

/// The cost of one voice against a scale.
fn voice_score(scale: &Scale, voice: &Vec<Note>) -> (r: u64)
    requires
        1 <= scale.notes@.len() <= 12,
        voice@.len() < 0x4000_0000_0000_0000,
    ensures
        r as int == voice_cost(scale.notes@, voice@),
        voice@.len() >= 1 ==> r <= voice@.len() - 1,
        voice@.len() == 0 ==> r == 0,
{
    let ghost s = scale.notes@;
    proof {
        lemma_voice_cost_bounds(s, voice@);
    }
    let n = voice.len();
    if n < 2 {
        return 0;
    }
    let mut total: u64 = 0;
    let mut i: usize = 0;
    while i < n - 1
        invariant
            n == voice@.len() < 0x4000_0000_0000_0000,
            1 <= s.len() <= 12,
            s == scale.notes@,
            2 <= n,
            i <= n - 1,
            total as int == voice_cost(s, voice@.take(i + 1)),
            total <= i,
        decreases n - 1 - i,
    {
        let da = resolve_degree(scale, &voice[i]);
        let db = resolve_degree(scale, &voice[i + 1]);
        let delta: u8 = if da >= db {
            da - db
        } else {
            db - da
        };
        let penalty: u64 = if delta == 0 {
            0
        } else {
            1
        };
        proof {
            assert(delta == 0 <==> da == db);
            assert(penalty as int == move_penalty(s, voice@[i as int], voice@[i + 1]));
            let w = voice@.take(i + 2);
            lemma_voice_cost_snoc(s, w);
            assert(w.drop_last() =~= voice@.take(i + 1));
            assert(w[w.len() - 2] == voice@[i as int]);
            assert(w[w.len() - 1] == voice@[i + 1]);
        }
        total = total + penalty;
        i = i + 1;
    }
    proof {
        assert(voice@.take(n as int) =~= voice@);
    }
    total
}

/// A solution small enough that its cost fits comfortably in a `u64`.
pub open spec fn scoreable(sv: SolutionView) -> bool {
    &&& sv.soprano.len() < 0x4000000000000000
    &&& sv.alto.len() < 0x4000000000000000
    &&& sv.tenor.len() < 0x4000000000000000
}

/// The voice-leading cost of `solution` in `key`: for each of the three
/// upper voices, each adjacent pair of notes costs 1 when its resolved scale
/// degrees differ and 0 when they agree; the total is the sum over all pairs
/// of all three voices. The bass is not scored.
pub fn score(key: &Key, solution: &Solution) -> (r: u64)
    requires
        key_wf(*key),
        solution.soprano@.len() < 0x4000_0000_0000_0000,
        solution.alto@.len() < 0x4000_0000_0000_0000,
        solution.tenor@.len() < 0x4000_0000_0000_0000,
    ensures
        r as int == solution_cost(*key, solution@),
{
    let scale = Scale::from_key(key);
    proof {
        lemma_voice_cost_bounds(scale.notes@, solution.soprano@);
        lemma_voice_cost_bounds(scale.notes@, solution.alto@);
        lemma_voice_cost_bounds(scale.notes@, solution.tenor@);
    }
    let a = voice_score(&scale, &solution.soprano);
    let b = voice_score(&scale, &solution.alto);
    let c = voice_score(&scale, &solution.tenor);
    a + b + c
}


/// The upper-voice pool of a realized chord: all three notes of a triad
/// (the bass pitch class included), but for a chord with one extension the
/// three notes that remain once the bass is removed.
pub open spec fn pool_spec(chord: Seq<Note>) -> Seq<Note> {
    if chord.len() == 4 {
        chord.drop_first()
    } else {
        chord
    }
}

/// The six orderings of a three-note pool, in the order the enumerator
/// generates them.
pub open spec fn all_orderings(p: Seq<Note>) -> Seq<(Note, Note, Note)> {
    seq![
        (p[0], p[1], p[2]),
        (p[0], p[2], p[1]),
        (p[1], p[0], p[2]),
        (p[1], p[2], p[0]),
        (p[2], p[0], p[1]),
        (p[2], p[1], p[0]),
    ]
}

/// `s` with every element that already occurred earlier removed: the first
/// occurrence of each value is kept, in order. Values are compared as
/// written, so two spellings of one pitch stay distinct.
pub open spec fn dedup_first<T>(s: Seq<T>) -> Seq<T>
    decreases s.len(),
{
    if s.len() == 0 {
        Seq::empty()
    } else {
        let prefix = dedup_first(s.drop_last());
        if s.subrange(0, s.len() - 1).contains(s.last()) {
            prefix
        } else {
            prefix.push(s.last())
        }
    }
}

/// Deduplication keeps exactly the values that occur.
proof fn lemma_dedup_contains<T>(s: Seq<T>, x: T)
    ensures
        dedup_first(s).contains(x) <==> s.contains(x),
    decreases s.len(),
{
    if s.len() == 0 {
    } else {
        let dl = s.drop_last();
        let prefix = dedup_first(dl);
        lemma_dedup_contains(dl, x);
        assert(s.subrange(0, s.len() - 1) =~= dl);
        if s.contains(x) {
            let w = choose|i: int| 0 <= i < s.len() && s[i] == x;
            if w < s.len() - 1 {
                assert(dl[w] == x);
                assert(dl.contains(x));
            } else {
                assert(s.last() == x);
            }
            if dl.contains(x) {
                let wp = choose|i: int| 0 <= i < prefix.len() && prefix[i] == x;
                if dl.contains(s.last()) {
                    assert(dedup_first(s)[wp] == x);
                } else {
                    assert(dedup_first(s) == prefix.push(s.last()));
                    assert(prefix.push(s.last())[wp] == x);
                }
            } else {
                assert(s.last() == x);
                assert(dedup_first(s) == prefix.push(x));
                assert(prefix.push(x)[prefix.len() as int] == x);
            }
            assert(dedup_first(s).contains(x));
        }
        if dedup_first(s).contains(x) {
            let w = choose|i: int| 0 <= i < dedup_first(s).len() && dedup_first(s)[i] == x;
            if dl.contains(s.last()) {
                assert(prefix[w] == x);
                assert(prefix.contains(x));
            } else {
                assert(dedup_first(s) == prefix.push(s.last()));
                if w < prefix.len() {
                    assert(prefix[w] == x);
                    assert(prefix.contains(x));
                } else {
                    assert(x == s.last());
                    assert(s[s.len() - 1] == x);
                }
            }
            if prefix.contains(x) {
                assert(dl.contains(x));
                let wd = choose|i: int| 0 <= i < dl.len() && dl[i] == x;
                assert(s[wd] == x);
            }
            assert(s.contains(x));
        }
    }
}

/// Deduplication never grows a sequence and keeps something of a non-empty
/// one.
proof fn lemma_dedup_len<T>(s: Seq<T>)
    ensures
        dedup_first(s).len() <= s.len(),
        s.len() >= 1 ==> dedup_first(s).len() >= 1,
    decreases s.len(),
{
    if s.len() == 0 {
    } else {
        lemma_dedup_len(s.drop_last());
        if s.len() == 1 {
            assert(s.subrange(0, 0).len() == 0);
            assert(!s.subrange(0, 0).contains(s.last()));
        } else {
            if s.subrange(0, s.len() - 1).contains(s.last()) {
                assert(s.drop_last().len() >= 1);
            }
        }
    }
}

/// The distinct candidate voicings of one step: every distinct ordering of
/// the pool, first occurrences kept in generation order.
pub open spec fn candidates_spec(chord: Seq<Note>) -> Seq<(Note, Note, Note)> {
    dedup_first(all_orderings(pool_spec(chord)))
}

/// Two notes are written identically: same letter, accidental and octave.
/// (Stricter than `==` on notes, which is enharmonic.)
fn same_spelling(a: &Note, b: &Note) -> (r: bool)
    ensures
        r == (*a == *b),
{
    let alpha = match (a.alphabet, b.alphabet) {
        (crate::alphabet::Alphabet::A, crate::alphabet::Alphabet::A) => true,
        (crate::alphabet::Alphabet::B, crate::alphabet::Alphabet::B) => true,
        (crate::alphabet::Alphabet::C, crate::alphabet::Alphabet::C) => true,
        (crate::alphabet::Alphabet::D, crate::alphabet::Alphabet::D) => true,
        (crate::alphabet::Alphabet::E, crate::alphabet::Alphabet::E) => true,
        (crate::alphabet::Alphabet::F, crate::alphabet::Alphabet::F) => true,
        (crate::alphabet::Alphabet::G, crate::alphabet::Alphabet::G) => true,
        _ => false,
    };
    let acc = match (a.accidental, b.accidental) {
        (crate::accidental::Accidental::Unmarked, crate::accidental::Accidental::Unmarked) => true,
        (crate::accidental::Accidental::DoubleFlat, crate::accidental::Accidental::DoubleFlat) => true,
        (crate::accidental::Accidental::Flat, crate::accidental::Accidental::Flat) => true,
        (crate::accidental::Accidental::Natural, crate::accidental::Accidental::Natural) => true,
        (crate::accidental::Accidental::Sharp, crate::accidental::Accidental::Sharp) => true,
        (crate::accidental::Accidental::DoubleSharp, crate::accidental::Accidental::DoubleSharp) => true,
        _ => false,
    };
    alpha && acc && a.octave == b.octave
}

/// Two candidate voicings assign identically-written notes to all three
/// voices.
fn same_candidate(a: &(Note, Note, Note), b: &(Note, Note, Note)) -> (r: bool)
    ensures
        r == (*a == *b),
{
    same_spelling(&a.0, &b.0) && same_spelling(&a.1, &b.1) && same_spelling(&a.2, &b.2)
}

/// Whether `c` is already among the collected candidates.
fn candidates_contain(v: &Vec<(Note, Note, Note)>, c: &(Note, Note, Note)) -> (r: bool)
    ensures
        r == v@.contains(*c),
{
    let n = v.len();
    let mut i: usize = 0;
    while i < n
        invariant
            i <= n == v@.len(),
            forall|j: int| 0 <= j < i ==> v@[j] != *c,
        decreases n - i,
    {
        if same_candidate(&v[i], c) {
            return true;
        }
        i = i + 1;
    }
    false
}

/// Every distinct permutation of the pool `(p0, p1, p2)`, bound positionally
/// to (soprano, alto, tenor), in generation order with first occurrences
/// kept.
fn step_candidates(p0: Note, p1: Note, p2: Note) -> (r: Vec<(Note, Note, Note)>)
    ensures
        r@ == dedup_first(all_orderings(seq![p0, p1, p2])),
        1 <= r@.len() <= 6,
{
    let ghost pool = seq![p0, p1, p2];
    let mut all: Vec<(Note, Note, Note)> = Vec::new();
    all.push((p0, p1, p2));
    all.push((p0, p2, p1));
    all.push((p1, p0, p2));
    all.push((p1, p2, p0));
    all.push((p2, p0, p1));
    all.push((p2, p1, p0));
    proof {
        assert(all@ =~= all_orderings(pool));
    }
    let mut out: Vec<(Note, Note, Note)> = Vec::new();
    let mut i: usize = 0;
    while i < 6
        invariant
            i <= 6,
            all@ == all_orderings(pool),
            all@.len() == 6,
            out@ == dedup_first(all@.take(i as int)),
        decreases 6 - i,
    {
        let c = all[i];
        proof {
            let t = all@.take(i + 1);
            assert(t.drop_last() =~= all@.take(i as int));
            assert(t.subrange(0, t.len() - 1) =~= all@.take(i as int));
            assert(t.last() == all@[i as int]);
            lemma_dedup_contains(all@.take(i as int), all@[i as int]);
        }
        if !candidates_contain(&out, &c) {
            out.push(c);
        }
        i = i + 1;
    }
    proof {
        assert(all@.take(6) =~= all@);
        lemma_dedup_len(all@);
        lemma_dedup_len(all@.take(6));
    }
    out
}

/// `sv` with one more step put in front: the candidate's three upper notes
/// and the step's bass note.
pub open spec fn prepend_view(c: (Note, Note, Note), bass: Note, sv: SolutionView) -> SolutionView {
    SolutionView {
        soprano: seq![c.0] + sv.soprano,
        alto: seq![c.1] + sv.alto,
        tenor: seq![c.2] + sv.tenor,
        bass: seq![bass] + sv.bass,
    }
}

pub open spec fn prepend_views(c: (Note, Note, Note), bass: Note, sols: Seq<SolutionView>) -> Seq<
    SolutionView,
> {
    Seq::new(sols.len(), |i: int| prepend_view(c, bass, sols[i]))
}

/// The one-step solution a candidate yields at the last step.
pub open spec fn single_view(c: (Note, Note, Note), bass: Note) -> SolutionView {
    SolutionView { soprano: seq![c.0], alto: seq![c.1], tenor: seq![c.2], bass: seq![bass] }
}

pub open spec fn single_views(cands: Seq<(Note, Note, Note)>, bass: Note) -> Seq<SolutionView> {
    Seq::new(cands.len(), |i: int| single_view(cands[i], bass))
}

/// The cross product of one step with the solutions of the remaining steps:
/// for each candidate in order, every inner solution in order, with the
/// candidate's notes prepended.
pub open spec fn combine(
    cands: Seq<(Note, Note, Note)>,
    bass: Note,
    inner: Seq<SolutionView>,
) -> Seq<SolutionView>
    decreases cands.len(),
{
    if cands.len() == 0 {
        Seq::empty()
    } else {
        prepend_views(cands[0], bass, inner) + combine(cands.drop_first(), bass, inner)
    }
}

/// The rotation of this symbol's chord stays within the range of
/// representable chromatic positions.
pub open spec fn rotation_safe(rn: RomanNumeral, key: Key) -> bool {
    forall|j: int|
        0 <= j < rn.rotation_spec() ==> Note::id_in_range(
            (#[trigger] rn.chord_base_notes_spec(key)[j]).id_spec() + 12,
        )
}

/// What the solver asks of its input: a buildable key and, at every step, a
/// well-formed symbol whose chord rotation stays in range.
pub open spec fn progression_wf(key: Key, prog: Seq<RomanNumeral>) -> bool {
    &&& key_wf(key)
    &&& forall|i: int| 0 <= i < prog.len() ==> (#[trigger] prog[i]).wf_spec()
    &&& forall|i: int| 0 <= i < prog.len() ==> rotation_safe(#[trigger] prog[i], key)
}

/// Every admissible assignment of the upper voices for the steps from `i`
/// on: each candidate of step `i`, in order, prefixed onto every solution of
/// the remaining steps, in order.
pub open spec fn enumerate_spec(key: Key, prog: Seq<RomanNumeral>, i: int) -> Seq<SolutionView>
    decreases prog.len() - i
    when 0 <= i < prog.len()
{
    let chord = prog[i].chord_spec(key);
    let cands = candidates_spec(chord);
    let bass = chord[0];
    if i == prog.len() - 1 {
        single_views(cands, bass)
    } else {
        combine(cands, bass, enumerate_spec(key, prog, i + 1))
    }
}

/// The product, over the steps from `i` on, of the number of distinct
/// candidates at each step.
pub open spec fn candidate_count(key: Key, prog: Seq<RomanNumeral>, i: int) -> int
    decreases prog.len() - i
    when 0 <= i < prog.len()
{
    let c = candidates_spec(prog[i].chord_spec(key)).len() as int;
    if i == prog.len() - 1 {
        c
    } else {
        c * candidate_count(key, prog, i + 1)
    }
}

/// One step's cross product has one entry per candidate and inner solution.
proof fn lemma_combine_len(cands: Seq<(Note, Note, Note)>, bass: Note, inner: Seq<SolutionView>)
    ensures
        combine(cands, bass, inner).len() == cands.len() * inner.len(),
    decreases cands.len(),
{
    if cands.len() == 0 {
    } else {
        lemma_combine_len(cands.drop_first(), bass, inner);
        assert(combine(cands, bass, inner).len() == inner.len() + (cands.len() - 1) * inner.len());
        assert(inner.len() + (cands.len() - 1) * inner.len() == cands.len() * inner.len())
            by (nonlinear_arith);
    }
}

/// Adding a candidate at the end appends its block of solutions at the end.
proof fn lemma_combine_snoc(
    cands: Seq<(Note, Note, Note)>,
    c: (Note, Note, Note),
    bass: Note,
    inner: Seq<SolutionView>,
)
    ensures
        combine(cands.push(c), bass, inner) == combine(cands, bass, inner) + prepend_views(
            c,
            bass,
            inner,
        ),
    decreases cands.len(),
{
    let t = cands.push(c);
    if cands.len() == 0 {
        assert(t.drop_first() =~= Seq::<(Note, Note, Note)>::empty());
        assert(t[0] == c);
        assert(combine(Seq::<(Note, Note, Note)>::empty(), bass, inner)
            == Seq::<SolutionView>::empty());
        assert(combine(t, bass, inner) == prepend_views(t[0], bass, inner) + combine(
            t.drop_first(),
            bass,
            inner,
        ));
        assert(combine(t, bass, inner) =~= combine(cands, bass, inner) + prepend_views(
            c,
            bass,
            inner,
        ));
    } else {
        assert(t.drop_first() =~= cands.drop_first().push(c));
        assert(t[0] == cands[0]);
        lemma_combine_snoc(cands.drop_first(), c, bass, inner);
        assert(combine(t, bass, inner) =~= combine(cands, bass, inner) + prepend_views(
            c,
            bass,
            inner,
        ));
    }
}

/// Enumeration returns exactly the product, over steps, of the number of
/// distinct candidates at each step, and that product is at least one.
pub proof fn lemma_enumerate_len(key: Key, prog: Seq<RomanNumeral>, i: int)
    requires
        0 <= i < prog.len(),
    ensures
        enumerate_spec(key, prog, i).len() == candidate_count(key, prog, i),
        candidate_count(key, prog, i) >= 1,
    decreases prog.len() - i,
{
    let chord = prog[i].chord_spec(key);
    let cands = candidates_spec(chord);
    lemma_dedup_len(all_orderings(pool_spec(chord)));
    if i == prog.len() - 1 {
    } else {
        lemma_enumerate_len(key, prog, i + 1);
        lemma_combine_len(cands, chord[0], enumerate_spec(key, prog, i + 1));
        assert(cands.len() >= 1 && candidate_count(key, prog, i + 1) >= 1 ==> cands.len()
            * candidate_count(key, prog, i + 1) >= 1) by (nonlinear_arith);
    }
}

/// Every solution of the cross product is one step longer than the inner
/// solutions it extends.
proof fn lemma_combine_wf(
    cands: Seq<(Note, Note, Note)>,
    bass: Note,
    inner: Seq<SolutionView>,
    n: int,
)
    requires
        forall|j: int| 0 <= j < inner.len() ==> (#[trigger] inner[j]).wf(n),
    ensures
        forall|j: int|
            0 <= j < combine(cands, bass, inner).len() ==> (#[trigger] combine(
                cands,
                bass,
                inner,
            )[j]).wf(n + 1),
    decreases cands.len(),
{
    if cands.len() == 0 {
    } else {
        lemma_combine_wf(cands.drop_first(), bass, inner, n);
        let whole = combine(cands, bass, inner);
        assert forall|j: int| 0 <= j < whole.len() implies (#[trigger] whole[j]).wf(n + 1) by {
            if j < inner.len() {
                assert(whole[j] == prepend_views(cands[0], bass, inner)[j]);
                assert(prepend_views(cands[0], bass, inner)[j] == prepend_view(
                    cands[0],
                    bass,
                    inner[j],
                ));
            } else {
                assert(whole[j] == combine(cands.drop_first(), bass, inner)[j - inner.len()]);
            }
        }
    }
}

/// Every enumerated solution has one note per voice per remaining step.
pub proof fn lemma_enumerate_wf(key: Key, prog: Seq<RomanNumeral>, i: int)
    requires
        0 <= i < prog.len(),
    ensures
        forall|j: int|
            0 <= j < enumerate_spec(key, prog, i).len() ==> (#[trigger] enumerate_spec(
                key,
                prog,
                i,
            )[j]).wf(prog.len() - i),
    decreases prog.len() - i,
{
    let chord = prog[i].chord_spec(key);
    let cands = candidates_spec(chord);
    let whole = enumerate_spec(key, prog, i);
    if i == prog.len() - 1 {
        assert forall|j: int| 0 <= j < whole.len() implies (#[trigger] whole[j]).wf(1) by {
            assert(whole[j] == single_view(cands[j], chord[0]));
        }
    } else {
        lemma_enumerate_wf(key, prog, i + 1);
        lemma_combine_wf(cands, chord[0], enumerate_spec(key, prog, i + 1), prog.len() - (i + 1));
    }
}

/// A vector holding exactly one note.
fn singleton_vec(x: Note) -> (r: Vec<Note>)
    ensures
        r@ =~= seq![x],
{
    let mut v: Vec<Note> = Vec::new();
    v.push(x);
    v
}

/// A copy of `v` with `x` put in front.
fn prepend_note(x: Note, v: &Vec<Note>) -> (r: Vec<Note>)
    ensures
        r@ =~= seq![x] + v@,
{
    let mut out: Vec<Note> = Vec::new();
    out.push(x);
    let n = v.len();
    let mut i: usize = 0;
    while i < n
        invariant
            i <= n == v@.len(),
            out@ =~= seq![x] + v@.take(i as int),
        decreases n - i,
    {
        out.push(v[i]);
        i = i + 1;
    }
    proof {
        assert(v@.take(n as int) =~= v@);
    }
    out
}

/// The views of a run of solutions.
pub open spec fn views_of(s: Seq<Solution>) -> Seq<SolutionView> {
    Seq::new(s.len(), |i: int| s[i]@)
}

/// The solutions for the steps of the progression from `i` on.
fn enumerate_from(key: &Key, prog: &Vec<RomanNumeral>, i: usize) -> (r: Vec<Solution>)
    requires
        progression_wf(*key, prog@),
        i < prog@.len(),
    ensures
        views_of(r@) == enumerate_spec(*key, prog@, i as int),
    decreases prog@.len() - i,
{
    let plen = prog.len();
    let rn = &prog[i];
    proof {
        assert(prog@[i as int].wf_spec());
        assert(rotation_safe(prog@[i as int], *key));
    }
    let chord = rn.chord(key);
    proof {
        assert(chord.notes@.len() == rn.chord_base_notes_spec(*key).len());
        assert(chord.notes@.len() == 3 + rn.additional_notes@.len());
    }
    let bass = chord.notes[0];
    let (p0, p1, p2) = if chord.notes.len() == 4 {
        (chord.notes[1], chord.notes[2], chord.notes[3])
    } else {
        (chord.notes[0], chord.notes[1], chord.notes[2])
    };
    proof {
        assert(seq![p0, p1, p2] =~= pool_spec(chord.notes@));
    }
    let cands = step_candidates(p0, p1, p2);
    let ghost gcands = candidates_spec(prog@[i as int].chord_spec(*key));
    let ghost gbass = prog@[i as int].chord_spec(*key)[0];
    proof {
        assert(cands@ == gcands);
        assert(bass == gbass);
    }
    let mut out: Vec<Solution> = Vec::new();
    let ncands = cands.len();
    if i + 1 == plen {
        let mut ci: usize = 0;
        while ci < ncands
            invariant
                ci <= ncands == cands@.len(),
                cands@ == gcands,
                bass == gbass,
                out@.len() == ci,
                views_of(out@) =~~= single_views(gcands.take(ci as int), gbass),
            decreases ncands - ci,
        {
            let c = cands[ci];
            let sol = Solution {
                soprano: singleton_vec(c.0),
                alto: singleton_vec(c.1),
                tenor: singleton_vec(c.2),
                bass: singleton_vec(bass),
            };
            proof {
                assert(sol@.soprano =~= single_view(c, gbass).soprano);
                assert(sol@.alto =~= single_view(c, gbass).alto);
                assert(sol@.tenor =~= single_view(c, gbass).tenor);
                assert(sol@.bass =~= single_view(c, gbass).bass);
                assert(sol@ == single_view(c, gbass));
            }
            let ghost prev = out@;
            out.push(sol);
            proof {
                let target = single_views(gcands.take(ci + 1), gbass);
                assert(out@ == prev.push(sol));
                assert(views_of(out@).len() == ci + 1);
                assert forall|idx: int| 0 <= idx < ci + 1 implies #[trigger] views_of(out@)[idx]
                    == target[idx] by {
                    assert(views_of(out@)[idx] == out@[idx]@);
                    assert(target[idx] == single_view(gcands.take(ci + 1)[idx], gbass));
                    assert(gcands.take(ci + 1)[idx] == gcands[idx]);
                    if idx < ci {
                        assert(out@[idx] == prev[idx]);
                        assert(views_of(prev)[idx] == prev[idx]@);
                        assert(views_of(prev)[idx] == single_views(
                            gcands.take(ci as int),
                            gbass,
                        )[idx]);
                        assert(single_views(gcands.take(ci as int), gbass)[idx] == single_view(
                            gcands.take(ci as int)[idx],
                            gbass,
                        ));
                        assert(gcands.take(ci as int)[idx] == gcands[idx]);
                    } else {
                        assert(out@[idx] == sol);
                        assert(sol@ == single_view(c, gbass));
                    }
                }
                assert(views_of(out@) =~~= target);
            }
            ci = ci + 1;
        }
        proof {
            assert(gcands.take(ncands as int) =~= gcands);
            assert(views_of(out@) == enumerate_spec(*key, prog@, i as int));
        }
    } else {
        let mut ci: usize = 0;
        let ghost ginner = enumerate_spec(*key, prog@, i as int + 1);
        while ci < ncands
            invariant
                ci <= ncands == cands@.len(),
                cands@ == gcands,
                bass == gbass,
                progression_wf(*key, prog@),
                plen == prog@.len(),
                i + 1 < plen,
                ginner == enumerate_spec(*key, prog@, i as int + 1),
                views_of(out@) =~= combine(gcands.take(ci as int), gbass, ginner),
            decreases ncands - ci,
        {
            let c = cands[ci];
            let inner = enumerate_from(key, prog, i + 1);
            let ninner = inner.len();
            let mut j: usize = 0;
            while j < ninner
                invariant
                    j <= ninner == inner@.len(),
                    bass == gbass,
                    views_of(inner@) == ginner,
                    out@.len() == combine(gcands.take(ci as int), gbass, ginner).len() + j,
                    views_of(out@) =~~= combine(gcands.take(ci as int), gbass, ginner)
                        + prepend_views(c, gbass, ginner.take(j as int)),
                decreases ninner - j,
            {
                let sol = Solution {
                    soprano: prepend_note(c.0, &inner[j].soprano),
                    alto: prepend_note(c.1, &inner[j].alto),
                    tenor: prepend_note(c.2, &inner[j].tenor),
                    bass: prepend_note(bass, &inner[j].bass),
                };
                proof {
                    assert(inner@[j as int]@ == ginner[j as int]);
                    assert(sol@.soprano =~= prepend_view(c, gbass, ginner[j as int]).soprano);
                    assert(sol@.alto =~= prepend_view(c, gbass, ginner[j as int]).alto);
                    assert(sol@.tenor =~= prepend_view(c, gbass, ginner[j as int]).tenor);
                    assert(sol@.bass =~= prepend_view(c, gbass, ginner[j as int]).bass);
                    assert(sol@ == prepend_view(c, gbass, ginner[j as int]));
                }
                let ghost prev = out@;
                let ghost base = combine(gcands.take(ci as int), gbass, ginner);
                out.push(sol);
                proof {
                    let target = base + prepend_views(c, gbass, ginner.take(j + 1));
                    assert(out@ == prev.push(sol));
                    assert(target.len() == base.len() + j + 1);
                    assert(views_of(out@).len() == target.len());
                    assert forall|idx: int| 0 <= idx < target.len() implies #[trigger] views_of(
                        out@,
                    )[idx] == target[idx] by {
                        assert(views_of(out@)[idx] == out@[idx]@);
                        if idx < base.len() + j {
                            assert(out@[idx] == prev[idx]);
                            assert(views_of(prev)[idx] == prev[idx]@);
                            assert(views_of(prev)[idx] == (base + prepend_views(
                                c,
                                gbass,
                                ginner.take(j as int),
                            ))[idx]);
                            if idx < base.len() {
                                assert(target[idx] == base[idx]);
                            } else {
                                assert((base + prepend_views(c, gbass, ginner.take(j as int)))[idx]
                                    == prepend_views(c, gbass, ginner.take(j as int))[idx
                                    - base.len()]);
                                assert(prepend_views(c, gbass, ginner.take(j as int))[idx
                                    - base.len()] == prepend_view(
                                    c,
                                    gbass,
                                    ginner.take(j as int)[idx - base.len()],
                                ));
                                assert(ginner.take(j as int)[idx - base.len()] == ginner[idx
                                    - base.len()]);
                                assert(target[idx] == prepend_views(c, gbass, ginner.take(j + 1))[
                                idx - base.len()]);
                                assert(prepend_views(c, gbass, ginner.take(j + 1))[idx - base.len()]
                                    == prepend_view(c, gbass, ginner.take(j + 1)[idx - base.len()]));
                                assert(ginner.take(j + 1)[idx - base.len()] == ginner[idx
                                    - base.len()]);
                            }
                        } else {
                            assert(out@[idx] == sol);
                            assert(sol@ == prepend_view(c, gbass, ginner[j as int]));
                            assert(target[idx] == prepend_views(c, gbass, ginner.take(j + 1))[j as int]);
                            assert(prepend_views(c, gbass, ginner.take(j + 1))[j as int]
                                == prepend_view(c, gbass, ginner.take(j + 1)[j as int]));
                            assert(ginner.take(j + 1)[j as int] == ginner[j as int]);
                        }
                    }
                    assert(views_of(out@) =~~= target);
                }
                j = j + 1;
            }
            proof {
                assert(ginner.take(ninner as int) =~= ginner);
                lemma_combine_snoc(gcands.take(ci as int), c, gbass, ginner);
                assert(gcands.take(ci + 1) =~= gcands.take(ci as int).push(c));
                assert(views_of(out@) =~= combine(gcands.take(ci + 1), gbass, ginner));
            }
            ci = ci + 1;
        }
        proof {
            assert(gcands.take(ncands as int) =~= gcands);
            assert(views_of(out@) == enumerate_spec(*key, prog@, i as int));
        }
    }
    out
}

/// Enumerates every admissible four-voice setting of `progression` in `key`.
///
/// An empty progression is rejected with `InvalidProgression`; otherwise the
/// result lists, in enumeration order, one solution for every combination of
/// distinct per-step candidates, so its length is the product of the
/// per-step candidate counts and every solution has one note per voice per
/// step.
pub fn enumerate(key: &Key, progression: &Vec<RomanNumeral>) -> (r: Result<
    Vec<Solution>,
    SolveError,
>)
    requires
        progression_wf(*key, progression@),
    ensures
        r is Err <==> progression@.len() == 0,
        r matches Err(e) ==> e == SolveError::InvalidProgression,
        r matches Ok(sols) ==> {
            &&& views_of(sols@) == enumerate_spec(*key, progression@, 0)
            &&& sols@.len() == candidate_count(*key, progression@, 0)
            &&& forall|j: int|
                0 <= j < sols@.len() ==> (#[trigger] sols@[j]@).wf(progression@.len() as int)
        },
{
    if progression.len() == 0 {
        return Err(SolveError::InvalidProgression);
    }
    let sols = enumerate_from(key, progression, 0);
    proof {
        lemma_enumerate_len(*key, progression@, 0);
        lemma_enumerate_wf(*key, progression@, 0);
        assert forall|j: int| 0 <= j < sols@.len() implies (#[trigger] sols@[j]@).wf(
            progression@.len() as int,
        ) by {
            assert(sols@[j]@ == views_of(sols@)[j]);
        }
    }
    Ok(sols)
}

/// The index of the solution the selector retains: the first solution whose
/// cost is strictly lower than everything before it and no higher than
/// anything after it.
pub open spec fn best_index(key: Key, vs: Seq<SolutionView>) -> int
    decreases vs.len(),
{
    if vs.len() <= 1 {
        0
    } else {
        let b = best_index(key, vs.drop_last());
        if solution_cost(key, vs.last()) < solution_cost(key, vs[b]) {
            vs.len() - 1
        } else {
            b
        }
    }
}

/// `best_index` names the earliest minimum-cost solution: nothing costs
/// less, and everything before it costs strictly more.
pub proof fn lemma_best_index(key: Key, vs: Seq<SolutionView>)
    requires
        vs.len() > 0,
    ensures
        0 <= best_index(key, vs) < vs.len(),
        forall|j: int|
            0 <= j < vs.len() ==> solution_cost(key, vs[best_index(key, vs)]) <= solution_cost(
                key,
                #[trigger] vs[j],
            ),
        forall|j: int|
            0 <= j < best_index(key, vs) ==> solution_cost(key, #[trigger] vs[j]) > solution_cost(
                key,
                vs[best_index(key, vs)],
            ),
    decreases vs.len(),
{
    if vs.len() == 1 {
    } else {
        let dl = vs.drop_last();
        lemma_best_index(key, dl);
        assert forall|j: int| 0 <= j < dl.len() implies dl[j] == vs[j] by {}
        let b = best_index(key, dl);
        assert(dl[b] == vs[b]);
    }
}

/// Selects the best of the given solutions: a linear scan that keeps the
/// earliest solution with the strictly lowest cost seen so far, so ties go
/// to the solution enumerated first. An empty list fails with
/// `NoSolutions`.
pub fn best(key: &Key, solutions: Vec<Solution>) -> (r: Result<Solution, SolveError>)
    requires
        key_wf(*key),
        forall|i: int| 0 <= i < solutions@.len() ==> scoreable((#[trigger] solutions@[i])@),
    ensures
        r is Err <==> solutions@.len() == 0,
        r matches Err(e) ==> e == SolveError::NoSolutions,
        r matches Ok(s) ==> {
            let vs = views_of(solutions@);
            &&& s@ == vs[best_index(*key, vs)]
            &&& forall|j: int|
                0 <= j < vs.len() ==> solution_cost(*key, s@) <= solution_cost(
                    *key,
                    #[trigger] vs[j],
                )
            &&& forall|j: int|
                0 <= j < best_index(*key, vs) ==> solution_cost(*key, #[trigger] vs[j])
                    > solution_cost(*key, s@)
        },
{
    let mut solutions = solutions;
    if solutions.len() == 0 {
        return Err(SolveError::NoSolutions);
    }
    let ghost vs = views_of(solutions@);
    let n = solutions.len();
    let mut best_i: usize = 0;
    let mut best_score: u64 = score(key, &solutions[0]);
    proof {
        assert(vs.take(1).len() == 1);
        assert(vs.take(1)[0] == vs[0]);
    }
    let mut i: usize = 1;
    while i < n
        invariant
            1 <= i <= n == solutions@.len(),
            key_wf(*key),
            forall|q: int| 0 <= q < solutions@.len() ==> scoreable((#[trigger] solutions@[q])@),
            vs == views_of(solutions@),
            best_i < i,
            best_i as int == best_index(*key, vs.take(i as int)),
            best_score as int == solution_cost(*key, vs[best_i as int]),
        decreases n - i,
    {
        let sc = score(key, &solutions[i]);
        proof {
            let t = vs.take(i + 1);
            assert(t.drop_last() =~= vs.take(i as int));
            assert(t.last() == vs[i as int]);
            assert(t[best_i as int] == vs[best_i as int]);
            assert(sc as int == solution_cost(*key, vs[i as int]));
        }
        if sc < best_score {
            best_i = i;
            best_score = sc;
        }
        i = i + 1;
    }
    proof {
        assert(vs.take(n as int) =~= vs);
        lemma_best_index(*key, vs);
    }
    let s = solutions.swap_remove(best_i);
    proof {
        assert(s@ == vs[best_index(*key, vs)]);
    }
    Ok(s)
}

/// Solves the four-part voice-leading problem: enumerates every admissible
/// setting of `progression` in `key`, scores each, and returns the
/// first-enumerated solution of minimum cost.
///
/// Fails with `InvalidProgression` exactly when the progression is empty;
/// a non-empty progression always yields a solution, since every step has
/// at least one candidate voicing.
pub fn solve(key: &Key, progression: &Vec<RomanNumeral>) -> (r: Result<Solution, SolveError>)
    requires
        progression_wf(*key, progression@),
        progression@.len() < 0x4000000000000000,
    ensures
        r is Err <==> progression@.len() == 0,
        r matches Err(e) ==> e == SolveError::InvalidProgression,
        r matches Ok(s) ==> {
            let vs = enumerate_spec(*key, progression@, 0);
            &&& s@.wf(progression@.len() as int)
            &&& s@ == vs[best_index(*key, vs)]
            &&& forall|j: int|
                0 <= j < vs.len() ==> solution_cost(*key, s@) <= solution_cost(
                    *key,
                    #[trigger] vs[j],
                )
            &&& forall|j: int|
                0 <= j < best_index(*key, vs) ==> solution_cost(*key, #[trigger] vs[j])
                    > solution_cost(*key, s@)
        },
{
    let sols = match enumerate(key, progression) {
        Err(e) => {
            return Err(e);
        },
        Ok(sols) => sols,
    };
    proof {
        lemma_enumerate_len(*key, progression@, 0);
        assert forall|q: int| 0 <= q < sols@.len() implies scoreable((#[trigger] sols@[q])@) by {
            assert(sols@[q]@.wf(progression@.len() as int));
        }
    }
    match best(key, sols) {
        Ok(s) => {
            proof {
                let vs = views_of(sols@);
                assert(vs == enumerate_spec(*key, progression@, 0));
                assert(s@.wf(progression@.len() as int)) by {
                    assert(s@ == vs[best_index(*key, vs)]);
                    lemma_best_index(*key, vs);
                    lemma_enumerate_wf(*key, progression@, 0);
                }
            }
            Ok(s)
        },
        Err(_) => unreached(),
    }
}

/// The cost of a solution depends only on its three upper voices: two
/// solutions with the same soprano, alto and tenor lines cost the same in
/// the same key, whatever their bass lines, and re-scoring a solution
/// always yields the same integer.
pub proof fn lemma_cost_ignores_bass(key: Key, a: SolutionView, b: SolutionView)
    requires
        a.soprano == b.soprano,
        a.alto == b.alto,
        a.tenor == b.tenor,
    ensures
        solution_cost(key, a) == solution_cost(key, b),
{
}

/// A solution's cost is never negative.
pub proof fn lemma_cost_nonneg(key: Key, sol: SolutionView)
    ensures
        solution_cost(key, sol) >= 0,
{
    let s = scale_spec(key);
    lemma_voice_cost_bounds(s, sol.soprano);
    lemma_voice_cost_bounds(s, sol.alto);
    lemma_voice_cost_bounds(s, sol.tenor);
}

/// A voice holds one resolved scale degree throughout.
pub open spec fn constant_voice(s: Seq<Note>, v: Seq<Note>) -> bool {
    forall|i: int|
        0 <= i < v.len() ==> resolved_degree(s, #[trigger] v[i]) == resolved_degree(s, v[0])
}

/// One voice costs nothing exactly when it never changes resolved degree.
proof fn lemma_voice_cost_zero(s: Seq<Note>, v: Seq<Note>)
    ensures
        voice_cost(s, v) == 0 <==> constant_voice(s, v),
    decreases v.len(),
{
    if v.len() < 2 {
        assert(constant_voice(s, v));
    } else {
        let df = v.drop_first();
        lemma_voice_cost_zero(s, df);
        lemma_voice_cost_bounds(s, df);
        if voice_cost(s, v) == 0 {
            assert(move_penalty(s, v[0], v[1]) == 0);
            assert(constant_voice(s, df));
            assert forall|i: int| 0 <= i < v.len() implies resolved_degree(s, #[trigger] v[i])
                == resolved_degree(s, v[0]) by {
                if i >= 1 {
                    assert(df[i - 1] == v[i]);
                    assert(df[0] == v[1]);
                    assert(resolved_degree(s, df[i - 1]) == resolved_degree(s, df[0]));
                }
            }
        }
        if constant_voice(s, v) {
            assert forall|i: int| 0 <= i < df.len() implies resolved_degree(s, #[trigger] df[i])
                == resolved_degree(s, df[0]) by {
                assert(df[i] == v[i + 1]);
                assert(df[0] == v[1]);
                assert(resolved_degree(s, v[i + 1]) == resolved_degree(s, v[0]));
                assert(resolved_degree(s, v[1]) == resolved_degree(s, v[0]));
            }
            assert(voice_cost(s, df) == 0);
            assert(resolved_degree(s, v[1]) == resolved_degree(s, v[0]));
            assert(move_penalty(s, v[0], v[1]) == 0);
        }
    }
}

/// A solution costs zero exactly when each of its three upper voices keeps
/// one resolved scale degree across all steps. The bass line is free.
pub proof fn lemma_zero_cost_iff_constant(key: Key, sol: SolutionView)
    ensures
        solution_cost(key, sol) == 0 <==> (constant_voice(scale_spec(key), sol.soprano)
            && constant_voice(scale_spec(key), sol.alto) && constant_voice(
            scale_spec(key),
            sol.tenor,
        )),
{
    let s = scale_spec(key);
    lemma_voice_cost_bounds(s, sol.soprano);
    lemma_voice_cost_bounds(s, sol.alto);
    lemma_voice_cost_bounds(s, sol.tenor);
    lemma_voice_cost_zero(s, sol.soprano);
    lemma_voice_cost_zero(s, sol.alto);
    lemma_voice_cost_zero(s, sol.tenor);
}

/// The diatonic key of the given mode on `root`, as the solver's typed
/// result: `UnresolvableKey` when no key of that mode has `root` as its
/// root spelling, and for the diminished and augmented modes, which have no
/// diatonic scale at all.
pub fn key_of(root: Note, tonality: Tonality) -> (r: Result<Key, SolveError>)
    ensures
        r matches Err(e) ==> e == SolveError::UnresolvableKey,
        tonality == Tonality::Major ==> (r is Ok <==> major_signature_spec(root).is_some()),
        tonality == Tonality::Minor ==> (r is Ok <==> minor_signature_spec(root).is_some()),
        (tonality == Tonality::Diminished || tonality == Tonality::Augmented) ==> r is Err,
        tonality == Tonality::Major && r is Ok ==> crate::key::is_diatonic_key(
            r.unwrap(),
            root,
            major_signature_spec(root).unwrap(),
        ),
        tonality == Tonality::Minor && r is Ok ==> crate::key::is_diatonic_key(
            r.unwrap(),
            root,
            minor_signature_spec(root).unwrap(),
        ),
{
    let built = match tonality {
        Tonality::Major => Key::new_major(root),
        Tonality::Minor => Key::new_minor(root),
        Tonality::Diminished => None,
        Tonality::Augmented => None,
    };
    match built {
        Some(k) => Ok(k),
        None => Err(SolveError::UnresolvableKey),
    }
}

/// Decides `progression_wf` at run time, so that callers outside the
/// library can test the solver's precondition before calling it: the key
/// must be buildable, every symbol well-formed, and every chord rotation
/// within the range of representable chromatic positions.
pub fn progression_ok(key: &Key, progression: &Vec<RomanNumeral>) -> (r: bool)
    ensures
        r == progression_wf(*key, progression@),
{
    match key {
        Key::Chromatic => {},
        Key::Diatonic { signature, root } => {
            if root.octave >= 255 {
                return false;
            }
        },
    }
    let scale = Scale::from_key(key);
    let n = progression.len();
    let mut i: usize = 0;
    while i < n
        invariant
            i <= n == progression@.len(),
            key_wf(*key),
            scale.notes@ == scale_spec(*key),
            scale.notes@.len() >= 7,
            forall|q: int| 0 <= q < i ==> (#[trigger] progression@[q]).wf_spec(),
            forall|q: int| 0 <= q < i ==> rotation_safe(#[trigger] progression@[q], *key),
        decreases n - i,
    {
        let rn = &progression[i];
        if rn.degree < 1 || rn.degree > 7 {
            proof {
                assert(!progression@[i as int].wf_spec());
            }
            return false;
        }
        let n_extra = rn.additional_notes.len();
        if n_extra > 1 {
            proof {
                assert(!progression@[i as int].wf_spec());
            }
            return false;
        }
        if n_extra == 1 {
            let a = rn.additional_notes[0];
            if a.degree < 1 || a.degree > 7 {
                proof {
                    assert(!progression@[i as int].wf_spec());
                }
                return false;
            }
        }
        proof {
            assert(progression@[i as int].wf_spec());
        }
        let rot = rn.inversion.value_for(3 + n_extra as u8) as usize;
        let mut j: usize = 0;
        while j < rot
            invariant
                j <= rot,
                rot == progression@[i as int].rotation_spec(),
                i < progression@.len(),
                progression@[i as int].wf_spec(),
                rot <= 3 + progression@[i as int].additional_notes@.len(),
                scale.notes@ == scale_spec(*key),
                scale.notes@.len() >= 7,
                rn == &progression@[i as int],
                forall|q: int|
                    0 <= q < j ==> Note::id_in_range(
                        (#[trigger] progression@[i as int].chord_base_notes_spec(*key)[q]).id_spec()
                            + 12,
                    ),
            decreases rot - j,
        {
            let base: Note = if j == 0 {
                scale.notes[rn.degree as usize - 1]
            } else if j == 1 {
                scale.notes[((rn.degree + 2) as usize - 1) % 7]
            } else if j == 2 {
                scale.notes[((rn.degree + 4) as usize - 1) % 7]
            } else {
                let a = rn.additional_notes[0];
                let id: u8 = (rn.degree + a.degree - 1) % 7;
                let sn = scale.notes[id as usize];
                match a.quality {
                    crate::accidental::Accidental::Unmarked => sn,
                    _ => Note { alphabet: sn.alphabet, accidental: a.quality, octave: sn.octave },
                }
            };
            proof {
                assert(base == progression@[i as int].chord_base_notes_spec(*key)[j as int]);
            }
            let id = base.id();
            if id.0 + 12 < 0 || id.0 + 12 > 3023 {
                proof {
                    assert(!rotation_safe(progression@[i as int], *key));
                }
                return false;
            }
            j = j + 1;
        }
        proof {
            assert(rotation_safe(progression@[i as int], *key));
        }
        i = i + 1;
    }
    true
}

/// One voice's cost is unchanged by reversing its step order: each
/// adjacent pair penalizes movement symmetrically.
proof fn lemma_voice_cost_reverse(s: Seq<Note>, v: Seq<Note>)
    ensures
        voice_cost(s, v.reverse()) == voice_cost(s, v),
    decreases v.len(),
{
    if v.len() < 2 {
    } else {
        let n = v.len() as int;
        let rv = v.reverse();
        lemma_voice_cost_reverse(s, v.drop_last());
        assert(rv.drop_first() =~= v.drop_last().reverse());
        assert(rv[0] == v[n - 1]);
        assert(rv[1] == v[n - 2]);
        assert(voice_cost(s, rv) == move_penalty(s, v[n - 1], v[n - 2]) + voice_cost(
            s,
            v.drop_last().reverse(),
        ));
        lemma_voice_cost_snoc(s, v);
    }
}

/// The cost of a solution is the same whether its steps are read forwards
/// or backwards: every adjacent pair costs the same in either direction,
/// so the smoothness heuristic cannot tell the two readings apart.
pub proof fn lemma_cost_reversal_invariant(key: Key, sol: SolutionView)
    ensures
        solution_cost(
            key,
            SolutionView {
                soprano: sol.soprano.reverse(),
                alto: sol.alto.reverse(),
                tenor: sol.tenor.reverse(),
                bass: sol.bass.reverse(),
            },
        ) == solution_cost(key, sol),
{
    let s = scale_spec(key);
    lemma_voice_cost_reverse(s, sol.soprano);
    lemma_voice_cost_reverse(s, sol.alto);
    lemma_voice_cost_reverse(s, sol.tenor);
}

} // verus!
