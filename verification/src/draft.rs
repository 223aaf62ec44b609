//! The mapping being composed in the settings dialog, and the rules by
//! which it becomes a mapping of the configuration.

use vstd::prelude::*;

use crate::config::{at_least, mapping_views, AppConfig, KeyMapping, MappingView};
use crate::editing::{
    clamp_i32, contains_text, holds_after_removal, i32_of, read_i32, read_u64, shift_marks, u64_of,
};
use crate::presets::same_apart_from_presets;
use crate::small_lists::{IndexList, KeyList};
use crate::text::{join, push_joined, str_equal, texts, to_uppercase, uppercase};

verus! {

/// The fields of the mapping being composed in the settings dialog.
#[derive(Debug)]
pub struct MappingDraft {
    /// Trigger key of a single-key trigger.
    pub trigger: String,
    /// Captured input sequence; when it is not empty the mapping gets a
    /// sequence trigger.
    pub sequence: Vec<String>,
    /// Target keys.
    pub target_keys: Vec<String>,
    /// Repeat interval as typed.
    pub interval: String,
    /// Press duration as typed.
    pub duration: String,
    /// Move speed as typed.
    pub move_speed: String,
    /// Sequence window as typed.
    pub sequence_window: String,
    /// Turbo mode.
    pub turbo: bool,
    /// Target mode: 0=Single, 1=Multi (simultaneous), 2=Sequence (sequential).
    pub target_mode: u8,
    /// Positions of target keys that stay held.
    pub hold_indices: Vec<u8>,
    /// Keys pressed and held after the body.
    pub append_keys: Vec<String>,
    /// User note.
    pub note: String,
}

/// Why a draft was not added as a mapping.
#[derive(Debug, Clone, Copy, PartialEq, Eq, Structural)]
pub enum DraftError {
    /// The draft has no trigger or no target key yet.
    Incomplete,
    /// A mapping with the same trigger key exists.
    DuplicateTrigger,
}

/// The draft that the dialog starts from and returns to after a mapping
/// is added: empty texts and lists, move speed `5`, sequence window `300`,
/// turbo on, single target mode.
pub open spec fn is_fresh_draft(d: MappingDraft) -> bool {
    &&& d.trigger@.len() == 0
    &&& d.sequence@.len() == 0
    &&& d.target_keys@.len() == 0
    &&& d.interval@.len() == 0
    &&& d.duration@.len() == 0
    &&& d.move_speed@ == seq!['5']
    &&& d.sequence_window@ == seq!['3', '0', '0']
    &&& d.turbo
    &&& d.target_mode == 0
    &&& d.hold_indices@.len() == 0
    &&& d.append_keys@.len() == 0
    &&& d.note@.len() == 0
}

/// A draft can be added: it has a trigger key or an input sequence, and
/// at least one target key.
pub open spec fn draft_complete(d: MappingDraft) -> bool {
    (d.trigger@.len() > 0 || d.sequence@.len() > 0) && d.target_keys@.len() > 0
}

/// Each text in upper case.
pub open spec fn uppercase_all(v: Seq<Seq<char>>) -> Seq<Seq<char>> {
    v.map_values(|s: Seq<char>| uppercase(s))
}

/// The trigger key of the mapping a draft gives: the first key of the
/// input sequence when there is one, else the trigger key; in upper case.
pub open spec fn draft_trigger(d: MappingDraft) -> Seq<char> {
    if d.sequence@.len() > 0 {
        uppercase(d.sequence@[0]@)
    } else {
        uppercase(d.trigger@)
    }
}

/// The trigger sequence of the mapping a draft gives: the input sequence
/// in upper case, joined with commas.
pub open spec fn draft_sequence(d: MappingDraft) -> Option<Seq<char>> {
    if d.sequence@.len() > 0 {
        Some(join(uppercase_all(texts(d.sequence@)), seq![',']))
    } else {
        None
    }
}

/// The mapping a draft gives, with the trigger key, trigger sequence and
/// target keys already in upper case: the interval raised to at least 5,
/// the duration to at least 2 (each `None` when not a number), the move
/// speed brought into `1 ..= 100` (5 when not a number), the sequence
/// window raised to at least 50 (300 when not a number), and the rule
/// properties dropped when empty.
pub open spec fn drafted_mapping(
    d: MappingDraft,
    trigger_key: Seq<char>,
    trigger_sequence: Option<Seq<char>>,
    target_keys: Seq<Seq<char>>,
) -> MappingView {
    MappingView {
        trigger_key,
        trigger_sequence,
        sequence_window_ms: match u64_of(d.sequence_window@) {
            Some(v) => at_least(v, 50),
            None => 300,
        },
        target_keys,
        target_mode: d.target_mode,
        interval: match u64_of(d.interval@) {
            Some(v) => Some(at_least(v, 5)),
            None => None,
        },
        event_duration: match u64_of(d.duration@) {
            Some(v) => Some(at_least(v, 2)),
            None => None,
        },
        turbo_enabled: d.turbo,
        move_speed: match i32_of(d.move_speed@) {
            Some(v) => clamp_i32(v, 1, 100),
            None => 5,
        },
        note: d.note@,
        hold_indices: if d.hold_indices@.len() == 0 {
            None
        } else {
            Some(d.hold_indices@)
        },
        append_keys: if d.append_keys@.len() == 0 {
            None
        } else {
            Some(texts(d.append_keys@))
        },
    }
}

/// What the mapping made from a draft takes from it, for every draft: the
/// given trigger, sequence and target keys; the draft's turbo flag, target
/// mode and note as they are; the rule properties when not empty; an
/// interval (at least 5) and a press duration (at least 2) exactly when
/// their texts read as numbers, equal to those numbers when not below the
/// minimum; a move speed within `1 ..= 100`; a sequence window of at
/// least 50.
pub proof fn lemma_drafted_mapping_follows_draft(
    d: MappingDraft,
    trigger_key: Seq<char>,
    trigger_sequence: Option<Seq<char>>,
    target_keys: Seq<Seq<char>>,
)
    ensures
        ({
            let m = drafted_mapping(d, trigger_key, trigger_sequence, target_keys);
            &&& m.trigger_key == trigger_key
            &&& m.trigger_sequence == trigger_sequence
            &&& m.target_keys == target_keys
            &&& m.turbo_enabled == d.turbo
            &&& m.target_mode == d.target_mode
            &&& m.note == d.note@
            &&& (m.hold_indices is None) == (d.hold_indices@.len() == 0)
            &&& (m.hold_indices matches Some(h) ==> h == d.hold_indices@)
            &&& (m.append_keys is None) == (d.append_keys@.len() == 0)
            &&& (m.append_keys matches Some(a) ==> a == texts(d.append_keys@))
            &&& (m.interval is Some) == (u64_of(d.interval@) is Some)
            &&& (m.interval matches Some(v) ==> v >= 5 && (u64_of(d.interval@)->0 >= 5 ==> v
                == u64_of(d.interval@)->0))
            &&& (m.event_duration is Some) == (u64_of(d.duration@) is Some)
            &&& (m.event_duration matches Some(v) ==> v >= 2 && (u64_of(d.duration@)->0 >= 2
                ==> v == u64_of(d.duration@)->0))
            &&& 1 <= m.move_speed <= 100
            &&& (i32_of(d.move_speed@) matches Some(v) ==> (1 <= v <= 100 ==> m.move_speed == v))
            &&& m.sequence_window_ms >= 50
        }),
{
}

/// After a mapping is added from a draft, the new last mapping carries the
/// draft's settings as [`lemma_drafted_mapping_follows_draft`] states: its
/// turbo flag, target mode and note are the draft's, and its keys are the
/// draft's keys in upper case.
pub proof fn lemma_added_mapping_follows_draft(
    before: Seq<KeyMapping>,
    after: Seq<KeyMapping>,
    d: MappingDraft,
)
    requires
        mapping_views(after) == mapping_views(before).push(
            drafted_mapping(
                d,
                draft_trigger(d),
                draft_sequence(d),
                uppercase_all(texts(d.target_keys@)),
            ),
        ),
    ensures
        after.len() == before.len() + 1,
        after.last()@.turbo_enabled == d.turbo,
        after.last()@.target_mode == d.target_mode,
        after.last()@.note == d.note@,
        after.last()@.trigger_key == draft_trigger(d),
        after.last()@.target_keys.len() == d.target_keys@.len(),
        forall|i: int|
            0 <= i < d.target_keys@.len() ==> #[trigger] after.last()@.target_keys[i] == uppercase(
                d.target_keys@[i]@,
            ),
{
    let v = mapping_views(after);
    assert(v.len() == after.len());
    assert(v[after.len() - 1] == after.last()@);
    lemma_drafted_mapping_follows_draft(
        d,
        draft_trigger(d),
        draft_sequence(d),
        uppercase_all(texts(d.target_keys@)),
    );
}

/// Some mapping of `s` has the trigger key `key`.
pub open spec fn trigger_taken(s: Seq<KeyMapping>, key: Seq<char>) -> bool {
    exists|i: int| 0 <= i < s.len() && #[trigger] s[i].trigger_key@ == key
}

/// A copy of `v`.
fn copy_bytes(v: &Vec<u8>) -> (r: Vec<u8>)
    ensures
        r@ == v@,
{
    let mut out: Vec<u8> = Vec::new();
    let mut i: usize = 0;
    while i < v.len()
        invariant
            i <= v@.len(),
            out@ == v@.take(i as int),
        decreases v.len() - i,
    {
        out.push(v[i]);
        assert(out@ =~= v@.take(i + 1));
        i = i + 1;
    }
    assert(v@.take(v@.len() as int) =~= v@);
    out
}

/// Copies of the strings of `v`.
fn copy_strings(v: &Vec<String>) -> (r: Vec<String>)
    ensures
        r@ == v@,
{
    let mut out: Vec<String> = Vec::new();
    let mut i: usize = 0;
    while i < v.len()
        invariant
            i <= v@.len(),
            out@ == v@.take(i as int),
        decreases v.len() - i,
    {
        out.push(v[i].clone());
        assert(out@ =~= v@.take(i + 1));
        i = i + 1;
    }
    assert(v@.take(v@.len() as int) =~= v@);
    out
}

/// The strings of `v` in upper case.
fn uppercase_strings(v: &Vec<String>) -> (r: Vec<String>)
    ensures
        texts(r@) == uppercase_all(texts(v@)),
{
    let mut out: Vec<String> = Vec::new();
    let mut i: usize = 0;
    while i < v.len()
        invariant
            i <= v@.len(),
            out@.len() == i,
            texts(out@) == uppercase_all(texts(v@)).take(i as int),
        decreases v.len() - i,
    {
        let u = to_uppercase(v[i].as_str());
        let ghost prev = out@;
        out.push(u);
        assert forall|j: int| 0 <= j < i + 1 implies #[trigger] texts(out@)[j] == uppercase_all(
            texts(v@),
        ).take(i + 1)[j] by {
            if j < i {
                assert(out@[j] == prev[j]);
                assert(texts(prev)[j] == uppercase_all(texts(v@)).take(i as int)[j]);
            }
        }
        assert(texts(out@) =~= uppercase_all(texts(v@)).take(i + 1));
        i = i + 1;
    }
    assert(uppercase_all(texts(v@)).take(v@.len() as int) =~= uppercase_all(texts(v@)));
    out
}

/// Whether some mapping has the trigger key `key`.
pub fn has_trigger_key(mappings: &Vec<KeyMapping>, key: &str) -> (r: bool)
    ensures
        r == trigger_taken(mappings@, key@),
{
    let mut i: usize = 0;
    while i < mappings.len()
        invariant
            i <= mappings@.len(),
            forall|j: int| 0 <= j < i ==> #[trigger] mappings@[j].trigger_key@ != key@,
        decreases mappings.len() - i,
    {
        if str_equal(mappings[i].trigger_key.as_str(), key) {
            return true;
        }
        i = i + 1;
    }
    false
}

/// The mapping that `draft` gives once its trigger key, trigger sequence
/// and target keys are in upper case.
pub fn mapping_from_draft(
    draft: &MappingDraft,
    trigger_key: String,
    trigger_sequence: Option<String>,
    target_keys: Vec<String>,
) -> (m: KeyMapping)
    ensures
        m@ == drafted_mapping(
            *draft,
            trigger_key@,
            crate::config::opt_text(trigger_sequence),
            texts(target_keys@),
        ),
{
    let interval = match read_u64(draft.interval.as_str()) {
        Some(v) => Some(if v < 5 { 5 } else { v }),
        None => None,
    };
    let event_duration = match read_u64(draft.duration.as_str()) {
        Some(v) => Some(if v < 2 { 2 } else { v }),
        None => None,
    };
    let move_speed: i32 = match read_i32(draft.move_speed.as_str()) {
        Some(v) => if v < 1 {
            1
        } else if v > 100 {
            100
        } else {
            v
        },
        None => 5,
    };
    let sequence_window_ms: u64 = match read_u64(draft.sequence_window.as_str()) {
        Some(v) => if v < 50 {
            50
        } else {
            v
        },
        None => 300,
    };
    let hold_indices = if draft.hold_indices.len() == 0 {
        None
    } else {
        Some(IndexList::from_vec(copy_bytes(&draft.hold_indices)))
    };
    let append_keys = if draft.append_keys.len() == 0 {
        None
    } else {
        Some(KeyList::from_vec(copy_strings(&draft.append_keys)))
    };
    KeyMapping {
        trigger_key,
        trigger_sequence,
        sequence_window_ms,
        target_keys: KeyList::from_vec(target_keys),
        target_mode: draft.target_mode,
        interval,
        event_duration,
        turbo_enabled: draft.turbo,
        move_speed,
        note: draft.note.clone(),
        hold_indices,
        append_keys,
    }
}

impl MappingDraft {
    /// A fresh draft.
    pub fn new() -> (d: MappingDraft)
        ensures
            is_fresh_draft(d),
    {
        let mut move_speed = String::new();
        crate::text::push_char(&mut move_speed, '5');
        let mut sequence_window = String::new();
        crate::text::push_char(&mut sequence_window, '3');
        crate::text::push_char(&mut sequence_window, '0');
        crate::text::push_char(&mut sequence_window, '0');
        assert(move_speed@ =~= seq!['5']);
        assert(sequence_window@ =~= seq!['3', '0', '0']);
        MappingDraft {
            trigger: String::new(),
            sequence: Vec::new(),
            target_keys: Vec::new(),
            interval: String::new(),
            duration: String::new(),
            move_speed,
            sequence_window,
            turbo: true,
            target_mode: 0,
            hold_indices: Vec::new(),
            append_keys: Vec::new(),
            note: String::new(),
        }
    }

    /// Adds a target key chosen in a dialog, unless an equal key is there.
    pub fn add_target(&mut self, key: String)
        ensures
            texts(final(self).target_keys@) == if texts(old(self).target_keys@).contains(key@) {
                texts(old(self).target_keys@)
            } else {
                texts(old(self).target_keys@).push(key@)
            },
            final(self).trigger == old(self).trigger,
            final(self).sequence == old(self).sequence,
            final(self).hold_indices == old(self).hold_indices,
            final(self).append_keys == old(self).append_keys,
    {
        if !contains_text(&self.target_keys, key.as_str()) {
            self.target_keys.push(key);
            assert(texts(self.target_keys@) =~= texts(old(self).target_keys@).push(key@));
        }
    }

    /// Deletes the target key at `index`. A hold mark on it is dropped and
    /// the marks above it move down by one, so that each remaining mark
    /// stays on its key.
    pub fn remove_target(&mut self, index: usize)
        requires
            index < old(self).target_keys@.len(),
        ensures
            final(self).target_keys@ == old(self).target_keys@.remove(index as int),
            final(self).hold_indices@ == holds_after_removal(
                old(self).hold_indices@,
                index as u8,
            ),
            final(self).trigger == old(self).trigger,
            final(self).sequence == old(self).sequence,
            final(self).append_keys == old(self).append_keys,
            final(self).target_mode == old(self).target_mode,
    {
        self.target_keys.remove(index);
        let kept = shift_marks(self.hold_indices.as_slice(), index as u8);
        self.hold_indices = kept;
    }
}

impl AppConfig {
    /// Adds the mapping that `draft` gives and starts a fresh draft. The
    /// draft must have a trigger and a target key, and no mapping may have
    /// its trigger key already; otherwise nothing changes.
    pub fn add_mapping(&mut self, draft: &mut MappingDraft) -> (r: Result<(), DraftError>)
        ensures
            !draft_complete(*old(draft)) ==> r == Err::<(), DraftError>(DraftError::Incomplete)
                && *final(self) == *old(self),
            draft_complete(*old(draft)) && trigger_taken(
                old(self).mappings@,
                draft_trigger(*old(draft)),
            ) ==> r == Err::<(), DraftError>(DraftError::DuplicateTrigger) && *final(self)
                == *old(self),
            draft_complete(*old(draft)) && !trigger_taken(
                old(self).mappings@,
                draft_trigger(*old(draft)),
            ) ==> r is Ok && mapping_views(final(self).mappings@) == mapping_views(
                old(self).mappings@,
            ).push(
                drafted_mapping(
                    *old(draft),
                    draft_trigger(*old(draft)),
                    draft_sequence(*old(draft)),
                    uppercase_all(texts(old(draft).target_keys@)),
                ),
            ) && final(self).presets == old(self).presets && final(self).current_preset
                == old(self).current_preset && same_apart_from_presets(*old(self), *final(self)),
            r is Ok ==> is_fresh_draft(*final(draft)),
            r is Err ==> *final(draft) == *old(draft),
    {
        let has_trigger = !draft.trigger.as_str().is_empty() || draft.sequence.len() > 0;
        if !has_trigger || draft.target_keys.len() == 0 {
            return Err(DraftError::Incomplete);
        }
        let (trigger_key, trigger_sequence) = if draft.sequence.len() > 0 {
            let upper = uppercase_strings(&draft.sequence);
            let first = to_uppercase(draft.sequence[0].as_str());
            let mut joined = String::new();
            let comma = ",";
            proof {
                reveal_strlit(",");
            }
            assert(comma@ =~= seq![',']);
            let parts = upper.as_slice();
            push_joined(&mut joined, parts, comma, false);
            assert(parts@ == upper@);
            assert(joined@ =~= join(uppercase_all(texts(draft.sequence@)), seq![',']));
            (first, Some(joined))
        } else {
            (to_uppercase(draft.trigger.as_str()), None)
        };
        if has_trigger_key(&self.mappings, trigger_key.as_str()) {
            return Err(DraftError::DuplicateTrigger);
        }
        let targets = uppercase_strings(&draft.target_keys);
        let mapping = mapping_from_draft(&*draft, trigger_key, trigger_sequence, targets);
        self.mappings.push(mapping);
        assert(mapping_views(self.mappings@) =~= mapping_views(old(self).mappings@).push(mapping@));
        *draft = MappingDraft::new();
        Ok(())
    }
}

} // verus!
