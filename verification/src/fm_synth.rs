//! Voice allocation of the synth engine: which voice a key goes to, which
//! voice is stolen when all are busy, how the mono modes fall back to the
//! previous held key, and what the sustain pedal and panic do.
//!
//! The audio side (envelopes, oscillators) lives outside the library; it tells
//! the router which voices are still sounding and carries out the action the
//! router returns.
use std::collections::HashMap;
use vstd::prelude::*;

use crate::lfo::LFOWaveform;
use crate::state_snapshot::{mode_of_code, VoiceMode};

verus! {

broadcast use vstd::std_specs::hash::group_hash_axioms;

/// Number of voices of the engine.
pub const MAX_VOICES: usize = 16;

/// What the audio side must do to its voices after a key event.
#[derive(Debug, Clone, Copy, PartialEq, Eq, Structural)]
pub enum VoiceAction {
    /// Start `voice` on `note` (already transposed). With `steal` the voice
    /// was taken from a sounding note and fades out first.
    Trigger { voice: usize, note: u8, portamento: bool, steal: bool },
    /// Move `voice` to `note` (already transposed) without restarting its envelopes.
    Retarget { voice: usize, note: u8, portamento: bool },
    /// Release `voice`; with `release_pitch_eg` the pitch envelope is released too.
    Release { voice: usize, release_pitch_eg: bool },
    /// Nothing to do.
    Ignore,
}

/// What a key press asks of the audio side.
#[derive(Debug, Clone, Copy, PartialEq, Eq, Structural)]
pub struct NoteOnPlan {
    /// Restart the LFO and the pitch envelope.
    pub retrigger_modulators: bool,
    pub action: VoiceAction,
}

/// Note bookkeeping of the engine.
pub struct NoteRouter {
    voice_mode: VoiceMode,
    held_notes: HashMap<u8, usize>,
    mono_held_order: Vec<u8>,
    note_ids: Vec<u64>,
    note_counter: u64,
    transpose_semitones: i8,
    portamento_enable: bool,
    sustain_pedal: bool,
}

/// The state of a `NoteRouter`.
#[verifier::ext_equal]
pub struct RouterState {
    pub mode: VoiceMode,
    /// Held key -> voice it sounds on.
    pub held: Map<u8, usize>,
    /// Keys held in mono modes, oldest first.
    pub order: Seq<u8>,
    /// Per voice, the stamp of the key press that last started it.
    pub ids: Seq<u64>,
    pub counter: u64,
    pub transpose: i8,
    pub portamento: bool,
    pub sustain: bool,
}

impl View for NoteRouter {
    type V = RouterState;

    closed spec fn view(&self) -> RouterState {
        RouterState {
            mode: self.voice_mode,
            held: self.held_notes@,
            order: self.mono_held_order@,
            ids: self.note_ids@,
            counter: self.note_counter,
            transpose: self.transpose_semitones,
            portamento: self.portamento_enable,
            sustain: self.sustain_pedal,
        }
    }
}

/// No key occurs twice.
pub open spec fn no_dup(s: Seq<u8>) -> bool {
    forall|i: int, j: int| 0 <= i < j < s.len() ==> s[i] != s[j]
}

/// The held-key map of the mono modes: the newest held key on voice 0.
pub open spec fn mono_held(order: Seq<u8>) -> Map<u8, usize> {
    if order.len() == 0 {
        Map::empty()
    } else {
        map![order.last() => 0usize]
    }
}

/// What every router state satisfies.
pub open spec fn state_wf(s: RouterState) -> bool {
    &&& s.ids.len() == MAX_VOICES
    &&& forall|k: u8| #[trigger] s.held.contains_key(k) ==> s.held[k] < MAX_VOICES
    &&& no_dup(s.order)
    &&& s.mode != VoiceMode::Poly ==> s.held == mono_held(s.order)
}

/// `order` without `note`, the rest in the same order.
pub open spec fn without(order: Seq<u8>, note: u8) -> Seq<u8>
    decreases order.len(),
{
    if order.len() == 0 {
        Seq::empty()
    } else {
        let rest = without(order.drop_last(), note);
        if order.last() == note {
            rest
        } else {
            rest.push(order.last())
        }
    }
}

/// A key shifted by the transpose, clamped to the MIDI range.
pub open spec fn transposed(note: u8, transpose: i8) -> u8 {
    let shifted = note as int + transpose as int;
    if shifted < 0 {
        0
    } else if shifted > 127 {
        127
    } else {
        shifted as u8
    }
}

/// The held-key map without the keys on voice `v`.
pub open spec fn without_voice(held: Map<u8, usize>, v: usize) -> Map<u8, usize> {
    Map::new(|k: u8| held.contains_key(k) && held[k] != v, |k: u8| held[k])
}

/// Voice `i` is the first voice that is not sounding.
pub open spec fn is_first_inactive(active: Seq<bool>, i: int) -> bool {
    &&& 0 <= i < active.len()
    &&& !active[i]
    &&& forall|j: int| 0 <= j < i ==> active[j]
}

/// Voice `i` was started longest ago: the first voice with the smallest stamp.
pub open spec fn is_oldest(ids: Seq<u64>, i: int) -> bool {
    &&& 0 <= i < ids.len()
    &&& forall|j: int| 0 <= j < ids.len() ==> ids[i] <= ids[j]
    &&& forall|j: int| 0 <= j < i ==> ids[j] > ids[i]
}

/// The stamp counter after one more key press (it wraps around).
pub open spec fn next_counter(counter: u64) -> u64 {
    if counter == u64::MAX {
        0
    } else {
        (counter + 1) as u64
    }
}

/// The voice a poly key press goes to: the voice the key already sounds on,
/// else the first silent voice, else the oldest voice.
pub open spec fn poly_voice(s: RouterState, note: u8, active: Seq<bool>) -> int {
    if s.held.contains_key(note) {
        s.held[note] as int
    } else if exists|i: int| is_first_inactive(active, i) {
        choose|i: int| is_first_inactive(active, i)
    } else {
        choose|i: int| is_oldest(s.ids, i)
    }
}

/// A poly key press takes a sounding voice away from its key.
pub open spec fn poly_steals(s: RouterState, note: u8, active: Seq<bool>) -> bool {
    !s.held.contains_key(note) && !(exists|i: int| is_first_inactive(active, i))
}

/// The router state after a key press.
pub open spec fn after_note_on(s: RouterState, note: u8, active: Seq<bool>) -> RouterState {
    let counter = next_counter(s.counter);
    if s.mode == VoiceMode::Poly {
        let v = poly_voice(s, note, active);
        let held = if s.held.contains_key(note) {
            s.held
        } else if poly_steals(s, note, active) {
            without_voice(s.held, v as usize).insert(note, v as usize)
        } else {
            s.held.insert(note, v as usize)
        };
        RouterState { counter: counter, ids: s.ids.update(v, counter), held: held, ..s }
    } else {
        RouterState {
            counter: counter,
            ids: s.ids.update(0, counter),
            order: without(s.order, note).push(note),
            held: map![note => 0usize],
            ..s
        }
    }
}

/// What the audio side does on a key press.
pub open spec fn note_on_plan(s: RouterState, note: u8, active: Seq<bool>) -> NoteOnPlan {
    let tied = s.mode == VoiceMode::MonoLegato && s.order.len() > 0;
    let eff = transposed(note, s.transpose);
    let action = if s.mode == VoiceMode::Poly {
        VoiceAction::Trigger {
            voice: poly_voice(s, note, active) as usize,
            note: eff,
            portamento: false,
            steal: poly_steals(s, note, active),
        }
    } else if s.mode == VoiceMode::Mono {
        VoiceAction::Trigger { voice: 0, note: eff, portamento: s.portamento, steal: false }
    } else if tied {
        VoiceAction::Retarget { voice: 0, note: eff, portamento: s.portamento }
    } else {
        VoiceAction::Trigger { voice: 0, note: eff, portamento: false, steal: false }
    };
    NoteOnPlan { retrigger_modulators: !tied, action: action }
}

/// The router state after a key release.
pub open spec fn after_note_off(s: RouterState, note: u8) -> RouterState {
    if s.sustain {
        s
    } else if s.mode != VoiceMode::Poly {
        let order = without(s.order, note);
        if order.len() > 0 {
            RouterState { order: order, held: map![order.last() => 0usize], ..s }
        } else if s.held.contains_key(note) {
            RouterState { order: order, held: s.held.remove(note), ..s }
        } else {
            RouterState { order: order, ..s }
        }
    } else if s.held.contains_key(note) {
        RouterState { held: s.held.remove(note), ..s }
    } else {
        s
    }
}

/// What the audio side does on a key release.
pub open spec fn note_off_action(s: RouterState, note: u8) -> VoiceAction {
    if s.sustain {
        VoiceAction::Ignore
    } else if s.mode != VoiceMode::Poly {
        let order = without(s.order, note);
        if order.len() > 0 {
            VoiceAction::Retarget {
                voice: 0,
                note: transposed(order.last(), s.transpose),
                portamento: s.portamento,
            }
        } else if s.held.contains_key(note) {
            VoiceAction::Release { voice: s.held[note], release_pitch_eg: true }
        } else {
            VoiceAction::Ignore
        }
    } else if s.held.contains_key(note) {
        VoiceAction::Release { voice: s.held[note], release_pitch_eg: s.held.remove(note).len() == 0 }
    } else {
        VoiceAction::Ignore
    }
}

/// The voice an action starts, moves or releases.
pub open spec fn action_voice(a: VoiceAction) -> Option<usize> {
    match a {
        VoiceAction::Trigger { voice, .. } => Some(voice),
        VoiceAction::Retarget { voice, .. } => Some(voice),
        VoiceAction::Release { voice, .. } => Some(voice),
        VoiceAction::Ignore => None,
    }
}

spec fn is_oldest_among(ids: Seq<u64>, n: int, i: int) -> bool {
    &&& 0 <= i < n
    &&& forall|j: int| 0 <= j < n ==> ids[i] <= ids[j]
    &&& forall|j: int| 0 <= j < i ==> ids[j] > ids[i]
}

proof fn lemma_oldest_in_prefix(ids: Seq<u64>, n: int)
    requires
        1 <= n <= ids.len(),
    ensures
        exists|i: int| is_oldest_among(ids, n, i),
    decreases n,
{
    if n == 1 {
        assert(is_oldest_among(ids, 1, 0));
    } else {
        let m = n - 1;
        lemma_oldest_in_prefix(ids, m);
        let i = choose|i: int| is_oldest_among(ids, m, i);
        if ids[n - 1] < ids[i] {
            assert(is_oldest_among(ids, n, n - 1));
        } else {
            assert(is_oldest_among(ids, n, i));
        }
    }
}

/// Some voice is always the oldest, so a full poly engine can always steal.
pub proof fn lemma_oldest_voice_exists(ids: Seq<u64>)
    requires
        ids.len() == MAX_VOICES,
    ensures
        exists|i: int| is_oldest(ids, i),
{
    let n = ids.len() as int;
    lemma_oldest_in_prefix(ids, n);
    let i = choose|i: int| is_oldest_among(ids, n, i);
    assert(is_oldest(ids, i));
}

proof fn lemma_poly_voice_in_range(s: RouterState, note: u8, active: Seq<bool>)
    requires
        state_wf(s),
        active.len() == MAX_VOICES,
    ensures
        0 <= poly_voice(s, note, active) < MAX_VOICES,
{
    if !s.held.contains_key(note) && !(exists|i: int| is_first_inactive(active, i)) {
        lemma_oldest_voice_exists(s.ids);
    }
}

/// A pressed key is held afterwards, on the very voice that the plan starts
/// or moves.
pub proof fn lemma_pressed_key_is_held(s: RouterState, note: u8, active: Seq<bool>)
    requires
        state_wf(s),
        active.len() == MAX_VOICES,
    ensures
        after_note_on(s, note, active).held.contains_key(note),
        action_voice(note_on_plan(s, note, active).action) == Some(
            after_note_on(s, note, active).held[note],
        ),
{
    lemma_poly_voice_in_range(s, note, active);
}

/// Every key press stamps the voice it starts or moves with the newest stamp,
/// so the voice a later steal takes is always the one whose key was pressed
/// longest ago.
pub proof fn lemma_started_voice_gets_newest_stamp(s: RouterState, note: u8, active: Seq<bool>)
    requires
        state_wf(s),
        active.len() == MAX_VOICES,
    ensures
        action_voice(note_on_plan(s, note, active).action) matches Some(v) && after_note_on(
            s,
            note,
            active,
        ).ids[v as int] == next_counter(s.counter),
        after_note_on(s, note, active).counter == next_counter(s.counter),
{
    lemma_poly_voice_in_range(s, note, active);
}

/// In poly mode, pressing a key that is not held and then releasing it, with
/// no voice stolen and the pedal up, releases the voice the press started and
/// gives back the held keys as they were; the pitch envelope is released when
/// no other key was held.
pub proof fn lemma_poly_press_release_round_trip(s: RouterState, note: u8, active: Seq<bool>)
    requires
        state_wf(s),
        active.len() == MAX_VOICES,
        s.mode == VoiceMode::Poly,
        !s.sustain,
        !s.held.contains_key(note),
        !poly_steals(s, note, active),
    ensures
        after_note_off(after_note_on(s, note, active), note).held == s.held,
        note_off_action(after_note_on(s, note, active), note) == (VoiceAction::Release {
            voice: poly_voice(s, note, active) as usize,
            release_pitch_eg: s.held.len() == 0,
        }),
{
    let v = poly_voice(s, note, active) as usize;
    assert(s.held.insert(note, v).remove(note) =~= s.held);
}

/// Pressing a key that is already held in poly mode restarts its own voice
/// and leaves the held keys as they were.
pub proof fn lemma_poly_repress_reuses_voice(s: RouterState, note: u8, active: Seq<bool>)
    requires
        state_wf(s),
        active.len() == MAX_VOICES,
        s.mode == VoiceMode::Poly,
        s.held.contains_key(note),
    ensures
        action_voice(note_on_plan(s, note, active).action) == Some(s.held[note]),
        after_note_on(s, note, active).held == s.held,
{
}

/// A stolen voice keeps only the new key: every key that sounded on it is
/// forgotten.
pub proof fn lemma_stolen_voice_forgets_old_keys(s: RouterState, note: u8, active: Seq<bool>, k: u8)
    requires
        state_wf(s),
        active.len() == MAX_VOICES,
        s.mode == VoiceMode::Poly,
        poly_steals(s, note, active),
        k != note,
        after_note_on(s, note, active).held.contains_key(k),
    ensures
        after_note_on(s, note, active).held[k] != poly_voice(s, note, active),
        s.held.contains_key(k),
{
}

/// In the mono modes at most one key is held, and it sounds on voice 0.
pub proof fn lemma_mono_holds_one_key_on_voice_zero(s: RouterState)
    requires
        state_wf(s),
        s.mode != VoiceMode::Poly,
    ensures
        s.held.len() <= 1,
        forall|k: u8| #[trigger] s.held.contains_key(k) ==> s.held[k] == 0,
{
    if s.order.len() > 0 {
        assert(s.held.dom() =~= set![s.order.last()]);
    } else {
        assert(s.held.dom() =~= Set::<u8>::empty());
    }
}

proof fn lemma_without_push(s: Seq<u8>, y: u8, note: u8)
    ensures
        without(s.push(y), note) == (if y == note {
            without(s, note)
        } else {
            without(s, note).push(y)
        }),
{
    assert(s.push(y).drop_last() =~= s);
}

/// In the mono modes, holding key `a`, pressing key `b` and releasing `b`
/// moves voice 0 back to `a` and leaves `a` held.
pub proof fn lemma_mono_release_falls_back(s: RouterState, a: u8, b: u8, active: Seq<bool>)
    requires
        state_wf(s),
        active.len() == MAX_VOICES,
        s.mode != VoiceMode::Poly,
        !s.sustain,
        a != b,
    ensures
        note_off_action(after_note_on(after_note_on(s, a, active), b, active), b) == (
        VoiceAction::Retarget { voice: 0, note: transposed(a, s.transpose), portamento: s.portamento }),
        after_note_off(after_note_on(after_note_on(s, a, active), b, active), b).held == map![a => 0usize],
{
    let o1 = without(s.order, a).push(a);
    let o2 = without(o1, b).push(b);
    lemma_without_push(without(s.order, a), a, b);
    lemma_without_push(without(o1, b), b, b);
    lemma_without_push(without(without(s.order, a), b), a, b);
}

/// In Mono Legato a key pressed while another is held glides voice 0 to it:
/// nothing is retriggered, neither the envelopes nor the modulators.
pub proof fn lemma_legato_tie_keeps_envelopes(s: RouterState, note: u8, active: Seq<bool>)
    requires
        s.mode == VoiceMode::MonoLegato,
        s.order.len() > 0,
    ensures
        !note_on_plan(s, note, active).retrigger_modulators,
        note_on_plan(s, note, active).action == (VoiceAction::Retarget {
            voice: 0,
            note: transposed(note, s.transpose),
            portamento: s.portamento,
        }),
{
}

/// With the sustain pedal down a key release changes nothing.
pub proof fn lemma_sustain_ignores_release(s: RouterState, note: u8)
    requires
        s.sustain,
    ensures
        after_note_off(s, note) == s,
        note_off_action(s, note) == VoiceAction::Ignore,
{
}

proof fn lemma_without_contains(order: Seq<u8>, note: u8, x: u8)
    ensures
        without(order, note).contains(x) <==> (order.contains(x) && x != note),
    decreases order.len(),
{
    if order.len() > 0 {
        let init = order.drop_last();
        lemma_without_contains(init, note, x);
        assert(order =~= init.push(order.last()));
        if order.contains(x) && x != note {
            let i = choose|i: int| 0 <= i < order.len() && order[i] == x;
            if i < order.len() - 1 {
                assert(init[i] == x);
            }
        }
        if init.contains(x) {
            let i = choose|i: int| 0 <= i < init.len() && init[i] == x;
            assert(order[i] == x);
        }
        let rest = without(init, note);
        if order.last() != note {
            assert(rest.push(order.last())[rest.len() as int] == order.last());
            if rest.contains(x) {
                let i = choose|i: int| 0 <= i < rest.len() && rest[i] == x;
                assert(rest.push(order.last())[i] == x);
            }
            if rest.push(order.last()).contains(x) {
                let i = choose|i: int| 0 <= i < rest.len() + 1 && rest.push(order.last())[i] == x;
                if i < rest.len() {
                    assert(rest[i] == x);
                }
            }
        }
    }
}

proof fn lemma_without_no_dup(order: Seq<u8>, note: u8)
    requires
        no_dup(order),
    ensures
        no_dup(without(order, note)),
        !without(order, note).contains(note),
    decreases order.len(),
{
    if order.len() > 0 {
        let init = order.drop_last();
        assert(no_dup(init));
        lemma_without_no_dup(init, note);
        lemma_without_contains(init, note, order.last());
        if init.contains(order.last()) {
            let i = choose|i: int| 0 <= i < init.len() && init[i] == order.last();
            assert(order[i] == order[order.len() - 1]);
        }
        let rest = without(init, note);
        if order.last() != note {
            let r = rest.push(order.last());
            assert forall|i: int, j: int| 0 <= i < j < r.len() implies r[i] != r[j] by {
                if j == rest.len() {
                    assert(rest.contains(rest[i]));
                }
            }
            if r.contains(note) {
                let i = choose|i: int| 0 <= i < r.len() && r[i] == note;
                assert(rest.contains(rest[i]));
            }
        }
    }
}

proof fn lemma_without_empty(order: Seq<u8>, note: u8)
    requires
        no_dup(order),
        order.len() > 0,
        without(order, note).len() == 0,
    ensures
        order =~= seq![note],
{
    lemma_without_contains(order, note, order.last());
    assert(order.contains(order.last()));
    if order.len() > 1 {
        lemma_without_contains(order, note, order[0]);
        assert(order.contains(order[0]));
    }
}

/// Pushing a key that is not there keeps the keys distinct.
proof fn lemma_push_fresh(s: Seq<u8>, note: u8)
    requires
        no_dup(s),
        !s.contains(note),
    ensures
        no_dup(s.push(note)),
{
    assert forall|i: int, j: int| 0 <= i < j < s.push(note).len() implies s.push(note)[i] != s.push(
        note,
    )[j] by {
        if j == s.len() {
            assert(s.contains(s[i]));
        }
    }
}

/// Removes `note` from the order, keeping the rest in place.
fn remove_from_order(order: &mut Vec<u8>, note: u8)
    ensures
        final(order)@ == without(old(order)@, note),
{
    let mut kept: Vec<u8> = Vec::new();
    let n = order.len();
    let mut i: usize = 0;
    while i < n
        invariant
            n == order.len(),
            i <= n,
            kept@ == without(order@.take(i as int), note),
        decreases n - i,
    {
        assert(order@.take(i as int + 1).drop_last() =~= order@.take(i as int));
        let x = order[i];
        if x != note {
            kept.push(x);
        }
        i = i + 1;
    }
    assert(order@.take(n as int) =~= order@);
    *order = kept;
}

/// Drops every held key that sounds on voice `v`.
fn remove_voice(held: &mut HashMap<u8, usize>, v: usize)
    ensures
        final(held)@ == without_voice(old(held)@, v),
{
    let ghost start = held@;
    let mut k: u16 = 0;
    while k < 256
        invariant
            k <= 256,
            forall|x: u8| (x as int) < k ==> (#[trigger] held@.contains_key(x) <==> (start.contains_key(x) && start[x] != v)),
            forall|x: u8| (x as int) >= k ==> (#[trigger] held@.contains_key(x) <==> start.contains_key(x)),
            forall|x: u8| #[trigger] held@.contains_key(x) ==> held@[x] == start[x],
        decreases 256 - k,
    {
        let key = k as u8;
        let found = held.get(&key);
        let hit = match found {
            Some(w) => *w == v,
            None => false,
        };
        if hit {
            held.remove(&key);
        }
        k = k + 1;
    }
    assert(held@ =~= without_voice(start, v));
}

proof fn lemma_first_inactive_unique(active: Seq<bool>, i: int, j: int)
    requires
        is_first_inactive(active, i),
        is_first_inactive(active, j),
    ensures
        i == j,
{
    if i < j {
        assert(active[i]);
    } else if j < i {
        assert(active[j]);
    }
}

proof fn lemma_oldest_unique(ids: Seq<u64>, i: int, j: int)
    requires
        is_oldest(ids, i),
        is_oldest(ids, j),
    ensures
        i == j,
{
    if i < j {
        assert(ids[i] > ids[j]);
    } else if j < i {
        assert(ids[j] > ids[i]);
    }
}

impl NoteRouter {
    /// A router with no key held, in poly mode, no transpose, portamento and
    /// sustain off.
    pub fn new() -> (r: NoteRouter)
        ensures
            r.wf(),
            r@.mode == VoiceMode::Poly,
            r@.held == Map::<u8, usize>::empty(),
            r@.order == Seq::<u8>::empty(),
            r@.ids == Seq::new(MAX_VOICES as nat, |i: int| 0u64),
            r@.counter == 0,
            r@.transpose == 0,
            !r@.portamento,
            !r@.sustain,
    {
        let mut ids: Vec<u64> = Vec::new();
        let mut i: usize = 0;
        while i < MAX_VOICES
            invariant
                i <= MAX_VOICES,
                ids@ == Seq::new(i as nat, |j: int| 0u64),
            decreases MAX_VOICES - i,
        {
            ids.push(0);
            i = i + 1;
        }
        let r = NoteRouter {
            voice_mode: VoiceMode::Poly,
            held_notes: HashMap::new(),
            mono_held_order: Vec::new(),
            note_ids: ids,
            note_counter: 0,
            transpose_semitones: 0,
            portamento_enable: false,
            sustain_pedal: false,
        };
        assert(r@.ids =~= Seq::new(MAX_VOICES as nat, |i: int| 0u64));
        r
    }

    /// The router's invariant.
    pub open spec fn wf(&self) -> bool {
        state_wf(self@)
    }

    /// The transposed key that the voices play for `note`.
    pub fn apply_transpose(&self, note: u8) -> (n: u8)
        ensures
            n == transposed(note, self@.transpose),
    {
        let shifted: i32 = note as i32 + self.transpose_semitones as i32;
        if shifted < 0 {
            0
        } else if shifted > 127 {
            127
        } else {
            shifted as u8
        }
    }

    /// A key is released. With the sustain pedal down nothing happens. In the
    /// mono modes voice 0 falls back to the newest key still held, or is
    /// released when none is. In poly mode the key's voice is released, and
    /// the pitch envelope with the last held key.
    pub fn note_off(&mut self, note: u8) -> (action: VoiceAction)
        requires
            old(self).wf(),
        ensures
            final(self).wf(),
            final(self)@ == after_note_off(old(self)@, note),
            action == note_off_action(old(self)@, note),
    {
        if self.sustain_pedal {
            return VoiceAction::Ignore;
        }
        match self.voice_mode {
            VoiceMode::Poly => {
                let found = self.held_notes.get(&note);
                match found {
                    Some(v) => {
                        let voice = *v;
                        self.held_notes.remove(&note);
                        let last = self.held_notes.is_empty();
                        proof {
                            assert(self@ =~= after_note_off(old(self)@, note));
                        }
                        VoiceAction::Release { voice, release_pitch_eg: last }
                    },
                    None => VoiceAction::Ignore,
                }
            },
            _ => {
                proof {
                    lemma_without_no_dup(self.mono_held_order@, note);
                }
                remove_from_order(&mut self.mono_held_order, note);
                let len = self.mono_held_order.len();
                if len > 0 {
                    let prev = self.mono_held_order[len - 1];
                    let prev_eff = self.apply_transpose(prev);
                    self.held_notes.clear();
                    self.held_notes.insert(prev, 0);
                    proof {
                        assert(self.held_notes@ =~= map![prev => 0usize]);
                        assert(self@ =~= after_note_off(old(self)@, note));
                    }
                    VoiceAction::Retarget { voice: 0, note: prev_eff, portamento: self.portamento_enable }
                } else {
                    proof {
                        if old(self)@.order.len() > 0 {
                            lemma_without_empty(old(self)@.order, note);
                        }
                    }
                    let found = self.held_notes.get(&note);
                    match found {
                        Some(v) => {
                            let voice = *v;
                            self.held_notes.remove(&note);
                            proof {
                                assert(self.held_notes@ =~= mono_held(self.mono_held_order@));
                                assert(self@ =~= after_note_off(old(self)@, note));
                            }
                            VoiceAction::Release { voice, release_pitch_eg: true }
                        },
                        None => {
                            proof {
                                assert(self@ =~= after_note_off(old(self)@, note));
                            }
                            VoiceAction::Ignore
                        },
                    }
                }
            },
        }
    }

    /// A key is pressed while `active` tells which voices still sound.
    /// Poly: the key's own voice is restarted, else the first silent voice
    /// takes it, else the oldest voice is stolen. Mono: voice 0 plays the
    /// newest key; in Mono Legato a key pressed while another is held glides
    /// without restarting the envelopes or the modulators.
    #[verifier::loop_isolation(false)]
    pub fn note_on(&mut self, note: u8, active: &[bool]) -> (plan: NoteOnPlan)
        requires
            old(self).wf(),
            active@.len() == MAX_VOICES,
        ensures
            final(self).wf(),
            final(self)@ == after_note_on(old(self)@, note, active@),
            plan == note_on_plan(old(self)@, note, active@),
    {
        self.note_counter = self.note_counter.wrapping_add(1);
        let counter = self.note_counter;
        let ghost pre = self@;
        let tied = self.voice_mode == VoiceMode::MonoLegato && self.mono_held_order.len() > 0;
        let eff = self.apply_transpose(note);
        match self.voice_mode {
            VoiceMode::Poly => {
                let found = self.held_notes.get(&note);
                let own = match found {
                    Some(v) => Some(*v),
                    None => None,
                };
                if let Some(v) = own {
                    self.note_ids.set(v, counter);
                    proof {
                        assert(self@ =~= after_note_on(old(self)@, note, active@));
                    }
                    return NoteOnPlan {
                        retrigger_modulators: true,
                        action: VoiceAction::Trigger { voice: v, note: eff, portamento: false, steal: false },
                    };
                }
                let mut i: usize = 0;
                while i < MAX_VOICES
                    invariant
                        i <= MAX_VOICES,
                        self@ == pre,
                        forall|j: int| 0 <= j < i ==> active@[j],
                    decreases MAX_VOICES - i,
                {
                    if !active[i] {
                        proof {
                            assert(is_first_inactive(active@, i as int));
                            let c = choose|c: int| is_first_inactive(active@, c);
                            lemma_first_inactive_unique(active@, i as int, c);
                        }
                        self.note_ids.set(i, counter);
                        self.held_notes.insert(note, i);
                        proof {
                            assert(self@ =~= after_note_on(old(self)@, note, active@));
                        }
                        return NoteOnPlan {
                            retrigger_modulators: true,
                            action: VoiceAction::Trigger { voice: i, note: eff, portamento: false, steal: false },
                        };
                    }
                    i = i + 1;
                }
                let mut oldest: usize = 0;
                let mut j: usize = 1;
                while j < MAX_VOICES
                    invariant
                        1 <= j <= MAX_VOICES,
                        oldest < j,
                        self@ == pre,
                        forall|k: int| 0 <= k < j ==> self.note_ids@[oldest as int] <= self.note_ids@[k],
                        forall|k: int| 0 <= k < oldest ==> self.note_ids@[k] > self.note_ids@[oldest as int],
                    decreases MAX_VOICES - j,
                {
                    if self.note_ids[j] < self.note_ids[oldest] {
                        oldest = j;
                    }
                    j = j + 1;
                }
                proof {
                    assert(is_oldest(self.note_ids@, oldest as int));
                    let c = choose|c: int| is_oldest(old(self)@.ids, c);
                    lemma_oldest_unique(old(self)@.ids, oldest as int, c);
                    assert(!exists|k: int| is_first_inactive(active@, k));
                }
                self.note_ids.set(oldest, counter);
                remove_voice(&mut self.held_notes, oldest);
                self.held_notes.insert(note, oldest);
                proof {
                    assert(self@ =~= after_note_on(old(self)@, note, active@));
                }
                NoteOnPlan {
                    retrigger_modulators: true,
                    action: VoiceAction::Trigger { voice: oldest, note: eff, portamento: false, steal: true },
                }
            },
            _ => {
                proof {
                    lemma_without_no_dup(self.mono_held_order@, note);
                    lemma_push_fresh(without(self.mono_held_order@, note), note);
                }
                remove_from_order(&mut self.mono_held_order, note);
                self.mono_held_order.push(note);
                self.held_notes.clear();
                self.held_notes.insert(note, 0);
                self.note_ids.set(0, counter);
                proof {
                    assert(self.held_notes@ =~= map![note => 0usize]);
                    assert(self@ =~= after_note_on(old(self)@, note, active@));
                }
                let action = if tied {
                    VoiceAction::Retarget { voice: 0, note: eff, portamento: self.portamento_enable }
                } else if self.voice_mode == VoiceMode::Mono {
                    VoiceAction::Trigger { voice: 0, note: eff, portamento: self.portamento_enable, steal: false }
                } else {
                    VoiceAction::Trigger { voice: 0, note: eff, portamento: false, steal: false }
                };
                NoteOnPlan { retrigger_modulators: !tied, action }
            },
        }
    }

    /// Switches the voice mode by its code (1 = Mono, 2 = Mono Legato, else
    /// Poly). Into a mono mode every held key is forgotten and every sounding
    /// voice but the first is to be stopped: `stop[i]` says so of voice `i`.
    pub fn set_voice_mode(&mut self, code: u8, active: &[bool]) -> (stop: Vec<bool>)
        requires
            old(self).wf(),
            active@.len() == MAX_VOICES,
        ensures
            final(self).wf(),
            final(self)@ == (if mode_of_code(code) == VoiceMode::Poly {
                RouterState { mode: VoiceMode::Poly, ..old(self)@ }
            } else {
                RouterState {
                    mode: mode_of_code(code),
                    held: Map::empty(),
                    order: Seq::empty(),
                    ..old(self)@
                }
            }),
            stop@.len() == MAX_VOICES,
            forall|i: int|
                0 <= i < MAX_VOICES ==> #[trigger] stop@[i] == (mode_of_code(code) != VoiceMode::Poly
                    && active@[i] && exists|j: int| 0 <= j < i && active@[j]),
    {
        let mode = VoiceMode::from_code(code);
        self.voice_mode = mode;
        let mono = mode != VoiceMode::Poly;
        let mut stop: Vec<bool> = Vec::new();
        let mut seen = false;
        let mut i: usize = 0;
        while i < MAX_VOICES
            invariant
                i <= MAX_VOICES,
                active@.len() == MAX_VOICES,
                stop@.len() == i,
                seen == exists|j: int| 0 <= j < i && active@[j],
                forall|k: int|
                    0 <= k < i ==> #[trigger] stop@[k] == (mono && active@[k] && exists|j: int|
                        0 <= j < k && active@[j]),
            decreases MAX_VOICES - i,
        {
            stop.push(mono && active[i] && seen);
            if active[i] {
                seen = true;
            }
            i = i + 1;
        }
        if mono {
            self.held_notes.clear();
            self.mono_held_order.clear();
        }
        proof {
            if mono {
                assert(self.held_notes@ =~= mono_held(self.mono_held_order@));
            }
        }
        stop
    }

    /// Sets the sustain pedal; while it is down key releases are ignored.
    pub fn set_sustain_pedal(&mut self, pressed: bool)
        requires
            old(self).wf(),
        ensures
            final(self).wf(),
            final(self)@ == (RouterState { sustain: pressed, ..old(self)@ }),
    {
        self.sustain_pedal = pressed;
    }

    /// Turns portamento on or off.
    pub fn set_portamento_enable(&mut self, enable: bool)
        requires
            old(self).wf(),
        ensures
            final(self).wf(),
            final(self)@ == (RouterState { portamento: enable, ..old(self)@ }),
    {
        self.portamento_enable = enable;
    }

    /// Sets the transpose, clamped to two octaves either way.
    pub fn set_transpose_semitones(&mut self, st: i8)
        requires
            old(self).wf(),
        ensures
            final(self).wf(),
            final(self)@ == (RouterState {
                transpose: if st < -24 { -24i8 } else if st > 24 { 24i8 } else { st },
                ..old(self)@
            }),
    {
        self.transpose_semitones = if st < -24 {
            -24
        } else if st > 24 {
            24
        } else {
            st
        };
    }

    /// All notes off: every held key is forgotten.
    pub fn panic(&mut self)
        requires
            old(self).wf(),
        ensures
            final(self).wf(),
            final(self)@ == (RouterState { held: Map::empty(), order: Seq::empty(), ..old(self)@ }),
    {
        self.held_notes.clear();
        self.mono_held_order.clear();
        proof {
            assert(self.held_notes@ =~= mono_held(self.mono_held_order@));
        }
    }

    /// Voice initialisation: every held key is forgotten and the transpose
    /// goes back to zero.
    pub fn voice_initialize(&mut self)
        requires
            old(self).wf(),
        ensures
            final(self).wf(),
            final(self)@ == (RouterState {
                held: Map::empty(),
                order: Seq::empty(),
                transpose: 0,
                ..old(self)@
            }),
    {
        self.held_notes.clear();
        self.mono_held_order.clear();
        self.transpose_semitones = 0;
        proof {
            assert(self.held_notes@ =~= mono_held(self.mono_held_order@));
        }
    }

    /// The voice mode.
    pub fn voice_mode(&self) -> (m: VoiceMode)
        ensures
            m == self@.mode,
    {
        self.voice_mode
    }

    /// The transpose in semitones.
    pub fn transpose_semitones(&self) -> (t: i8)
        ensures
            t == self@.transpose,
    {
        self.transpose_semitones
    }

    /// Whether the sustain pedal is down.
    pub fn sustain_pedal(&self) -> (b: bool)
        ensures
            b == self@.sustain,
    {
        self.sustain_pedal
    }

    /// Whether portamento is on.
    pub fn portamento_enable(&self) -> (b: bool)
        ensures
            b == self@.portamento,
    {
        self.portamento_enable
    }

    /// The voice a held key sounds on.
    pub fn held_voice(&self, note: u8) -> (v: Option<usize>)
        ensures
            v == (if self@.held.contains_key(note) {
                Some(self@.held[note])
            } else {
                None::<usize>
            }),
    {
        match self.held_notes.get(&note) {
            Some(v) => Some(*v),
            None => None,
        }
    }

    /// How many keys are held.
    pub fn held_count(&self) -> (n: usize)
        ensures
            n == self@.held.len(),
    {
        self.held_notes.len()
    }

    /// The keys held in the mono modes, oldest first.
    pub fn held_order(&self) -> (order: Vec<u8>)
        ensures
            order@ == self@.order,
    {
        self.mono_held_order.clone()
    }
}


/// The LFO waveform an LFO-parameter code selects: 0..4 name Triangle, Saw
/// Down, Saw Up, Square and Sine; every other code is Sample & Hold.
pub open spec fn waveform_of_param(w: u8) -> LFOWaveform {
    if w == 0 {
        LFOWaveform::Triangle
    } else if w == 1 {
        LFOWaveform::SawDown
    } else if w == 2 {
        LFOWaveform::SawUp
    } else if w == 3 {
        LFOWaveform::Square
    } else if w == 4 {
        LFOWaveform::Sine
    } else {
        LFOWaveform::SampleHold
    }
}

/// The LFO waveform of an LFO-parameter code (see `waveform_of_param`).
pub fn lfo_waveform_of_param(w: u8) -> (wave: LFOWaveform)
    ensures
        wave == waveform_of_param(w),
{
    match w {
        0 => LFOWaveform::Triangle,
        1 => LFOWaveform::SawDown,
        2 => LFOWaveform::SawUp,
        3 => LFOWaveform::Square,
        4 => LFOWaveform::Sine,
        _ => LFOWaveform::SampleHold,
    }
}

/// The patch-side routing amounts of the external controllers.
#[derive(Debug, Clone, Copy, PartialEq, Eq, Structural)]
pub enum Sensitivity {
    PitchMod,
    EgBias,
    PitchBias,
    AftertouchPitch,
    AftertouchAmp,
    AftertouchEgBias,
    AftertouchPitchBias,
    BreathPitch,
    BreathAmp,
    BreathEgBias,
    BreathPitchBias,
    FootVolume,
    FootPitch,
    FootAmp,
    FootEgBias,
}

/// The largest value of a sensitivity: 15 for the foot volume, 7 for the rest.
pub open spec fn sensitivity_max(which: Sensitivity) -> u8 {
    if which == Sensitivity::FootVolume {
        15
    } else {
        7
    }
}

/// The integer settings of the engine: algorithm, controller routing, bank
/// select and the preset in use.
#[derive(Debug, Clone, Copy, PartialEq, Eq, Structural)]
pub struct EngineControls {
    pub algorithm: u8,
    pub pitch_mod_sensitivity: u8,
    pub eg_bias_sensitivity: u8,
    pub pitch_bias_sensitivity: u8,
    pub aftertouch_pitch_sens: u8,
    pub aftertouch_amp_sens: u8,
    pub aftertouch_eg_bias_sens: u8,
    pub aftertouch_pitch_bias_sens: u8,
    pub breath_pitch_sens: u8,
    pub breath_amp_sens: u8,
    pub breath_eg_bias_sens: u8,
    pub breath_pitch_bias_sens: u8,
    pub foot_volume_sens: u8,
    pub foot_pitch_sens: u8,
    pub foot_amp_sens: u8,
    pub foot_eg_bias_sens: u8,
    pub bank_msb: u8,
    pub bank_lsb: u8,
    pub current_preset_index: usize,
}

impl EngineControls {
    /// The value of one sensitivity.
    pub open spec fn sensitivity(&self, which: Sensitivity) -> u8 {
        match which {
            Sensitivity::PitchMod => self.pitch_mod_sensitivity,
            Sensitivity::EgBias => self.eg_bias_sensitivity,
            Sensitivity::PitchBias => self.pitch_bias_sensitivity,
            Sensitivity::AftertouchPitch => self.aftertouch_pitch_sens,
            Sensitivity::AftertouchAmp => self.aftertouch_amp_sens,
            Sensitivity::AftertouchEgBias => self.aftertouch_eg_bias_sens,
            Sensitivity::AftertouchPitchBias => self.aftertouch_pitch_bias_sens,
            Sensitivity::BreathPitch => self.breath_pitch_sens,
            Sensitivity::BreathAmp => self.breath_amp_sens,
            Sensitivity::BreathEgBias => self.breath_eg_bias_sens,
            Sensitivity::BreathPitchBias => self.breath_pitch_bias_sens,
            Sensitivity::FootVolume => self.foot_volume_sens,
            Sensitivity::FootPitch => self.foot_pitch_sens,
            Sensitivity::FootAmp => self.foot_amp_sens,
            Sensitivity::FootEgBias => self.foot_eg_bias_sens,
        }
    }

    /// Every setting within its range.
    pub open spec fn wf(&self) -> bool {
        &&& 1 <= self.algorithm <= 32
        &&& self.pitch_mod_sensitivity <= 7
        &&& self.eg_bias_sensitivity <= 7
        &&& self.pitch_bias_sensitivity <= 7
        &&& self.aftertouch_pitch_sens <= 7
        &&& self.aftertouch_amp_sens <= 7
        &&& self.aftertouch_eg_bias_sens <= 7
        &&& self.aftertouch_pitch_bias_sens <= 7
        &&& self.breath_pitch_sens <= 7
        &&& self.breath_amp_sens <= 7
        &&& self.breath_eg_bias_sens <= 7
        &&& self.breath_pitch_bias_sens <= 7
        &&& self.foot_volume_sens <= 15
        &&& self.foot_pitch_sens <= 7
        &&& self.foot_amp_sens <= 7
        &&& self.foot_eg_bias_sens <= 7
        &&& self.bank_msb <= 127
        &&& self.bank_lsb <= 127
    }

    /// All routing amounts zero.
    pub open spec fn routing_cleared(&self) -> bool {
        &&& self.pitch_mod_sensitivity == 0
        &&& self.eg_bias_sensitivity == 0
        &&& self.pitch_bias_sensitivity == 0
        &&& self.aftertouch_pitch_sens == 0
        &&& self.aftertouch_amp_sens == 0
        &&& self.aftertouch_eg_bias_sens == 0
        &&& self.aftertouch_pitch_bias_sens == 0
        &&& self.breath_pitch_sens == 0
        &&& self.breath_amp_sens == 0
        &&& self.breath_eg_bias_sens == 0
        &&& self.breath_pitch_bias_sens == 0
        &&& self.foot_volume_sens == 0
        &&& self.foot_pitch_sens == 0
        &&& self.foot_amp_sens == 0
        &&& self.foot_eg_bias_sens == 0
    }

    /// Algorithm 1, no routing, bank 0, preset 0.
    pub fn new() -> (c: EngineControls)
        ensures
            c.wf(),
            c.algorithm == 1,
            c.routing_cleared(),
            c.bank_msb == 0,
            c.bank_lsb == 0,
            c.current_preset_index == 0,
    {
        EngineControls {
            algorithm: 1,
            pitch_mod_sensitivity: 0,
            eg_bias_sensitivity: 0,
            pitch_bias_sensitivity: 0,
            aftertouch_pitch_sens: 0,
            aftertouch_amp_sens: 0,
            aftertouch_eg_bias_sens: 0,
            aftertouch_pitch_bias_sens: 0,
            breath_pitch_sens: 0,
            breath_amp_sens: 0,
            breath_eg_bias_sens: 0,
            breath_pitch_bias_sens: 0,
            foot_volume_sens: 0,
            foot_pitch_sens: 0,
            foot_amp_sens: 0,
            foot_eg_bias_sens: 0,
            bank_msb: 0,
            bank_lsb: 0,
            current_preset_index: 0,
        }
    }

    /// Selects an algorithm; a number outside 1..=32 is ignored.
    pub fn set_algorithm(&mut self, alg: u8)
        requires
            old(self).wf(),
        ensures
            final(self).wf(),
            *final(self) == (if 1 <= alg <= 32 {
                EngineControls { algorithm: alg, ..*old(self) }
            } else {
                *old(self)
            }),
    {
        if 1 <= alg && alg <= 32 {
            self.algorithm = alg;
        }
    }

    /// Sets one routing amount, clamped to its largest value.
    pub fn set_sensitivity(&mut self, which: Sensitivity, value: u8)
        requires
            old(self).wf(),
        ensures
            final(self).wf(),
            final(self).sensitivity(which) == (if value > sensitivity_max(which) {
                sensitivity_max(which)
            } else {
                value
            }),
            forall|w: Sensitivity| w != which ==> #[trigger] final(self).sensitivity(w) == old(self).sensitivity(w),
            final(self).algorithm == old(self).algorithm,
            final(self).bank_msb == old(self).bank_msb,
            final(self).bank_lsb == old(self).bank_lsb,
            final(self).current_preset_index == old(self).current_preset_index,
    {
        let limit: u8 = if which == Sensitivity::FootVolume {
            15
        } else {
            7
        };
        let v = if value > limit {
            limit
        } else {
            value
        };
        match which {
            Sensitivity::PitchMod => self.pitch_mod_sensitivity = v,
            Sensitivity::EgBias => self.eg_bias_sensitivity = v,
            Sensitivity::PitchBias => self.pitch_bias_sensitivity = v,
            Sensitivity::AftertouchPitch => self.aftertouch_pitch_sens = v,
            Sensitivity::AftertouchAmp => self.aftertouch_amp_sens = v,
            Sensitivity::AftertouchEgBias => self.aftertouch_eg_bias_sens = v,
            Sensitivity::AftertouchPitchBias => self.aftertouch_pitch_bias_sens = v,
            Sensitivity::BreathPitch => self.breath_pitch_sens = v,
            Sensitivity::BreathAmp => self.breath_amp_sens = v,
            Sensitivity::BreathEgBias => self.breath_eg_bias_sens = v,
            Sensitivity::BreathPitchBias => self.breath_pitch_bias_sens = v,
            Sensitivity::FootVolume => self.foot_volume_sens = v,
            Sensitivity::FootPitch => self.foot_pitch_sens = v,
            Sensitivity::FootAmp => self.foot_amp_sens = v,
            Sensitivity::FootEgBias => self.foot_eg_bias_sens = v,
        }
    }

    /// Sets the pitch modulation sensitivity, clamped to 7.
    pub fn set_pitch_mod_sensitivity(&mut self, pms: u8)
        requires
            old(self).wf(),
        ensures
            final(self).wf(),
            *final(self) == (EngineControls {
                pitch_mod_sensitivity: if pms > 7 { 7u8 } else { pms },
                ..*old(self)
            }),
    {
        self.pitch_mod_sensitivity = if pms > 7 {
            7
        } else {
            pms
        };
    }

    /// Bank select MSB (CC0): the low seven bits of `v`.
    pub fn set_bank_select_msb(&mut self, v: u8)
        requires
            old(self).wf(),
        ensures
            final(self).wf(),
            *final(self) == (EngineControls { bank_msb: (v % 128) as u8, ..*old(self) }),
    {
        self.bank_msb = v & 0x7F;
        assert(v & 0x7F == v % 128) by (bit_vector);
    }

    /// Bank select LSB (CC32): the low seven bits of `v`.
    pub fn set_bank_select_lsb(&mut self, v: u8)
        requires
            old(self).wf(),
        ensures
            final(self).wf(),
            *final(self) == (EngineControls { bank_lsb: (v % 128) as u8, ..*old(self) }),
    {
        self.bank_lsb = v & 0x7F;
        assert(v & 0x7F == v % 128) by (bit_vector);
    }

    /// The bank index a program change selects: MSB, LSB and program as
    /// three seven-bit digits.
    pub fn program_index(&self, program: u8) -> (index: usize)
        requires
            self.wf(),
        ensures
            index == self.bank_msb * 16384 + self.bank_lsb * 128 + program % 128,
    {
        let msb = self.bank_msb as usize;
        let lsb = self.bank_lsb as usize;
        let p = (program & 0x7F) as usize;
        assert(program & 0x7F == program % 128) by (bit_vector);
        assert((msb << 14usize) | (lsb << 7usize) | p == msb * 16384 + lsb * 128 + p) by (bit_vector)
            requires
                msb <= 127,
                lsb <= 127,
                p <= 127,
        ;
        (msb << 14) | (lsb << 7) | p
    }

    /// Takes the preset at `index` of a bank of `bank_len` presets; returns
    /// whether it exists (else nothing changes).
    pub fn select_preset(&mut self, index: usize, bank_len: usize) -> (loaded: bool)
        requires
            old(self).wf(),
        ensures
            final(self).wf(),
            loaded == (index < bank_len),
            *final(self) == (if index < bank_len {
                EngineControls { current_preset_index: index, ..*old(self) }
            } else {
                *old(self)
            }),
    {
        if index >= bank_len {
            return false;
        }
        self.current_preset_index = index;
        true
    }

    /// A new bank was loaded: the preset in use is its first one.
    pub fn set_presets(&mut self)
        requires
            old(self).wf(),
        ensures
            final(self).wf(),
            *final(self) == (EngineControls { current_preset_index: 0, ..*old(self) }),
    {
        self.current_preset_index = 0;
    }

    /// Voice initialisation: algorithm 1 and every routing amount zero; the
    /// bank select and the preset in use stay.
    pub fn voice_initialize(&mut self)
        requires
            old(self).wf(),
        ensures
            final(self).wf(),
            final(self).algorithm == 1,
            final(self).routing_cleared(),
            final(self).bank_msb == old(self).bank_msb,
            final(self).bank_lsb == old(self).bank_lsb,
            final(self).current_preset_index == old(self).current_preset_index,
    {
        self.algorithm = 1;
        self.pitch_mod_sensitivity = 0;
        self.eg_bias_sensitivity = 0;
        self.pitch_bias_sensitivity = 0;
        self.aftertouch_pitch_sens = 0;
        self.aftertouch_amp_sens = 0;
        self.aftertouch_eg_bias_sens = 0;
        self.aftertouch_pitch_bias_sens = 0;
        self.breath_pitch_sens = 0;
        self.breath_amp_sens = 0;
        self.breath_eg_bias_sens = 0;
        self.breath_pitch_bias_sens = 0;
        self.foot_volume_sens = 0;
        self.foot_pitch_sens = 0;
        self.foot_amp_sens = 0;
        self.foot_eg_bias_sens = 0;
    }
}

} // verus!
