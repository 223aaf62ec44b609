//! The edits that the settings dialog makes to a configuration: numbers
//! typed into the settings fields, the target mode, rule properties and
//! input sequence of a mapping.

use vstd::prelude::*;

use crate::config::{at_least, AppConfig, KeyMapping, MappingView};
use crate::presets::same_apart_from_presets;
use crate::numbers::{
    parse_i32, parse_u32, parse_u64, parse_usize, signed_value, unsigned_value, within,
};
use crate::small_lists::{IndexList, KeyList};
use crate::text::{
    decimal, join, push_decimal, push_joined, push_str, split_at_char, split_on, str_equal, texts,
    trim, trimmed,
};

verus! {

/// The `u64` that `text` reads as, if any.
pub open spec fn u64_of(text: Seq<char>) -> Option<u64> {
    match within(unsigned_value(text), 0, u64::MAX as int) {
        Some(v) => Some(v as u64),
        None => None,
    }
}

/// The `u32` that `text` reads as, if any.
pub open spec fn u32_of(text: Seq<char>) -> Option<u32> {
    match within(unsigned_value(text), 0, u32::MAX as int) {
        Some(v) => Some(v as u32),
        None => None,
    }
}

/// The `usize` that `text` reads as, if any.
pub open spec fn usize_of(text: Seq<char>) -> Option<usize> {
    match within(unsigned_value(text), 0, usize::MAX as int) {
        Some(v) => Some(v as usize),
        None => None,
    }
}

/// The `i32` that `text` reads as, if any.
pub open spec fn i32_of(text: Seq<char>) -> Option<i32> {
    match within(signed_value(text), i32::MIN as int, i32::MAX as int) {
        Some(v) => Some(v as i32),
        None => None,
    }
}

/// `v` raised to `floor` when it is below it.
pub open spec fn at_least_u32(v: u32, floor: u32) -> u32 {
    if v < floor {
        floor
    } else {
        v
    }
}

/// `v` brought into `lo ..= hi` (`lo <= hi`).
pub open spec fn clamp_i32(v: i32, lo: i32, hi: i32) -> i32 {
    if v < lo {
        lo
    } else if v > hi {
        hi
    } else {
        v
    }
}

pub(crate) fn read_u64(text: &str) -> (r: Option<u64>)
    ensures
        r == u64_of(text@),
{
    match parse_u64(text) {
        Some(v) => Some(v),
        None => None,
    }
}

pub(crate) fn read_u32(text: &str) -> (r: Option<u32>)
    ensures
        r == u32_of(text@),
{
    match parse_u32(text) {
        Some(v) => Some(v),
        None => None,
    }
}

pub(crate) fn read_usize(text: &str) -> (r: Option<usize>)
    ensures
        r == usize_of(text@),
{
    match parse_usize(text) {
        Some(v) => Some(v),
        None => None,
    }
}

pub(crate) fn read_i32(text: &str) -> (r: Option<i32>)
    ensures
        r == i32_of(text@),
{
    match parse_i32(text) {
        Some(v) => Some(v),
        None => None,
    }
}

/// The texts `s` with each text kept at its first occurrence only, in
/// order: what `retain` with a set of the texts seen so far leaves.
pub open spec fn first_occurrences(s: Seq<Seq<char>>) -> Seq<Seq<char>>
    decreases s.len(),
{
    if s.len() == 0 {
        s
    } else {
        let r = first_occurrences(s.drop_last());
        if r.contains(s.last()) {
            r
        } else {
            r.push(s.last())
        }
    }
}

/// The target keys of a mapping after its target mode changes from `from`
/// to `to`: the single mode keeps the first key only, leaving the sequence
/// mode for the multi mode drops repeated keys, and every other change
/// keeps the keys.
pub open spec fn keys_for_mode(keys: Seq<Seq<char>>, from: u8, to: u8) -> Seq<Seq<char>> {
    if to == from {
        keys
    } else if to == 0 {
        if keys.len() > 1 {
            seq![keys[0]]
        } else {
            keys
        }
    } else if to == 1 && from == 2 {
        first_occurrences(keys)
    } else {
        keys
    }
}

/// Keeping the first occurrences leaves every text once and no other text.
pub proof fn lemma_first_occurrences(s: Seq<Seq<char>>)
    ensures
        first_occurrences(s).no_duplicates(),
        first_occurrences(s).to_set() == s.to_set(),
    decreases s.len(),
{
    if s.len() > 0 {
        let t = s.drop_last();
        lemma_first_occurrences(t);
        let r = first_occurrences(t);
        assert(s =~= t.push(s.last()));
        assert(s.to_set() =~= t.to_set().insert(s.last())) by {
            assert forall|x: Seq<char>| s.to_set().contains(x) <==> t.to_set().insert(
                s.last(),
            ).contains(x) by {
                if s.contains(x) {
                    let i = choose|i: int| 0 <= i < s.len() && s[i] == x;
                    if i < t.len() {
                        assert(t[i] == x);
                    }
                }
                if t.contains(x) {
                    let i = choose|i: int| 0 <= i < t.len() && t[i] == x;
                    assert(s[i] == x);
                }
                if x == s.last() {
                    assert(s[s.len() - 1] == x);
                }
            }
        }
        if !r.contains(s.last()) {
            let q = r.push(s.last());
            assert(q.to_set() =~= r.to_set().insert(s.last())) by {
                assert forall|x: Seq<char>| q.to_set().contains(x) <==> r.to_set().insert(
                    s.last(),
                ).contains(x) by {
                    if q.contains(x) {
                        let i = choose|i: int| 0 <= i < q.len() && q[i] == x;
                        if i < r.len() {
                            assert(r[i] == x);
                        }
                    }
                    if r.contains(x) {
                        let i = choose|i: int| 0 <= i < r.len() && r[i] == x;
                        assert(q[i] == x);
                    }
                    if x == s.last() {
                        assert(q[r.len() as int] == x);
                    }
                }
            }
            assert forall|i: int, j: int|
                0 <= i < q.len() && 0 <= j < q.len() && i != j implies q[i] != q[j] by {
                if i < r.len() && j < r.len() {
                    assert(r[i] != r[j]);
                } else if i < r.len() {
                    assert(r.contains(r[i]));
                } else {
                    assert(r.contains(r[j]));
                }
            }
        } else {
            assert(r.to_set().contains(s.last()));
            assert(r.to_set() =~= r.to_set().insert(s.last()));
        }
    }
}

/// What switching the target mode does to the target keys, for every list
/// of keys and every pair of modes: switching to the sequence mode, or to
/// the multi mode from the single mode, keeps every key in place;
/// switching to the single mode from another mode keeps the first key only
/// (all of them when there is at most one); switching from the sequence mode to the multi
/// mode keeps each key once, in the order of its first occurrence, and
/// loses none; and choosing the current mode changes nothing.
pub proof fn lemma_mode_switch_keys(keys: Seq<Seq<char>>, from: u8, to: u8)
    requires
        from <= 2,
        to <= 2,
    ensures
        to == from ==> keys_for_mode(keys, from, to) == keys,
        to == 2 ==> keys_for_mode(keys, from, to) == keys,
        to == 1 && from == 0 ==> keys_for_mode(keys, from, to) == keys,
        to == 0 && from != 0 ==> keys_for_mode(keys, from, to) == keys.take(
            if keys.len() == 0 {
                0int
            } else {
                1int
            },
        ),
        to == 1 && from == 2 ==> keys_for_mode(keys, from, to).no_duplicates()
            && keys_for_mode(keys, from, to).to_set() == keys.to_set()
            && (keys.no_duplicates() ==> keys_for_mode(keys, from, to) == keys),
{
    if to == 0 && keys.len() > 1 {
        assert(seq![keys[0]] =~= keys.take(1));
    }
    if to == 0 && keys.len() <= 1 {
        if keys.len() == 1 {
            assert(keys =~= keys.take(1));
        } else {
            assert(keys =~= keys.take(0));
        }
    }
    if to == 1 && from == 2 {
        lemma_first_occurrences(keys);
        if keys.no_duplicates() {
            lemma_first_occurrences_of_distinct(keys);
        }
    }
}

/// Keys that are already distinct are all kept, in place.
proof fn lemma_first_occurrences_of_distinct(s: Seq<Seq<char>>)
    requires
        s.no_duplicates(),
    ensures
        first_occurrences(s) == s,
    decreases s.len(),
{
    if s.len() > 0 {
        let t = s.drop_last();
        assert(t.no_duplicates()) by {
            assert forall|i: int, j: int| 0 <= i < t.len() && 0 <= j < t.len() && i != j implies t[i]
                != t[j] by {
                assert(t[i] == s[i] && t[j] == s[j]);
            }
        }
        lemma_first_occurrences_of_distinct(t);
        assert(!t.contains(s.last())) by {
            if t.contains(s.last()) {
                let k = choose|k: int| 0 <= k < t.len() && t[k] == s.last();
                assert(s[k] == s[s.len() - 1]);
            }
        }
        assert(t.push(s.last()) =~= s);
    }
}

/// Whether `v` holds a string equal to `s`.
pub(crate) fn contains_text(v: &Vec<String>, s: &str) -> (r: bool)
    ensures
        r == texts(v@).contains(s@),
{
    let mut i: usize = 0;
    while i < v.len()
        invariant
            i <= v@.len(),
            forall|j: int| 0 <= j < i ==> #[trigger] v@[j]@ != s@,
        decreases v.len() - i,
    {
        if str_equal(v[i].as_str(), s) {
            assert(texts(v@)[i as int] == s@);
            return true;
        }
        i = i + 1;
    }
    proof {
        if texts(v@).contains(s@) {
            let k = choose|k: int| 0 <= k < texts(v@).len() && texts(v@)[k] == s@;
            assert(v@[k]@ == s@);
        }
    }
    false
}

/// The strings of `v` with each kept at its first occurrence only.
fn dedup_texts(v: &[String]) -> (r: Vec<String>)
    ensures
        texts(r@) == first_occurrences(texts(v@)),
{
    let mut out: Vec<String> = Vec::new();
    let mut i: usize = 0;
    assert(texts(v@).take(0) =~= Seq::<Seq<char>>::empty());
    while i < v.len()
        invariant
            i <= v@.len(),
            texts(out@) == first_occurrences(texts(v@).take(i as int)),
        decreases v.len() - i,
    {
        let ghost t = texts(v@).take(i + 1);
        assert(t.drop_last() =~= texts(v@).take(i as int));
        assert(t.last() == v@[i as int]@);
        if !contains_text(&out, v[i].as_str()) {
            out.push(v[i].clone());
            assert(texts(out@) =~= first_occurrences(texts(v@).take(i as int)).push(v@[i as int]@));
        }
        i = i + 1;
    }
    assert(texts(v@).take(v@.len() as int) =~= texts(v@));
    out
}

/// The hold marks after the target key at `removed` is deleted: a mark on
/// it is dropped and marks above it move down by one.
pub open spec fn holds_after_removal(h: Seq<u8>, removed: u8) -> Seq<u8>
    decreases h.len(),
{
    if h.len() == 0 {
        h
    } else {
        let r = holds_after_removal(h.drop_last(), removed);
        let x = h.last();
        if x == removed {
            r
        } else if x > removed {
            r.push((x - 1) as u8)
        } else {
            r.push(x)
        }
    }
}

/// The marks of `h` other than `v`.
pub open spec fn without_mark(h: Seq<u8>, v: u8) -> Seq<u8>
    decreases h.len(),
{
    if h.len() == 0 {
        h
    } else {
        let r = without_mark(h.drop_last(), v);
        if h.last() == v {
            r
        } else {
            r.push(h.last())
        }
    }
}

/// The keys that the marks of `h` point at, skipping marks past the end.
pub open spec fn marked_keys(keys: Seq<Seq<char>>, h: Seq<u8>) -> Seq<Seq<char>>
    decreases h.len(),
{
    if h.len() == 0 {
        Seq::empty()
    } else {
        let r = marked_keys(keys, h.drop_last());
        if (h.last() as int) < keys.len() {
            r.push(keys[h.last() as int])
        } else {
            r
        }
    }
}

/// Deleting a target key keeps every other hold mark on the key it marked:
/// the marked keys afterwards are the marked keys before, without the
/// marks on the deleted key.
pub proof fn lemma_hold_marks_follow_keys(keys: Seq<Seq<char>>, h: Seq<u8>, index: int)
    requires
        0 <= index < keys.len(),
        index < 256,
    ensures
        marked_keys(keys.remove(index), holds_after_removal(h, index as u8)) == marked_keys(
            keys,
            without_mark(h, index as u8),
        ),
    decreases h.len(),
{
    if h.len() > 0 {
        let t = h.drop_last();
        lemma_hold_marks_follow_keys(keys, t, index);
        let x = h.last();
        let r = index as u8;
        let k = keys.remove(index);
        let ht = holds_after_removal(t, r);
        let wt = without_mark(t, r);
        if x == r {
            assert(holds_after_removal(h, r) == ht);
            assert(without_mark(h, r) == wt);
        } else {
            let y: u8 = if x > r {
                (x - 1) as u8
            } else {
                x
            };
            assert(holds_after_removal(h, r) == ht.push(y));
            assert(without_mark(h, r) == wt.push(x));
            assert(ht.push(y).drop_last() =~= ht);
            assert(wt.push(x).drop_last() =~= wt);
            assert(((y as int) < k.len()) == ((x as int) < keys.len()));
            if (x as int) < keys.len() {
                assert(k[y as int] == keys[x as int]);
            }
        }
    }
}

/// The hold marks `h` after the target key at `removed` is deleted.
pub(crate) fn shift_marks(h: &[u8], removed: u8) -> (r: Vec<u8>)
    ensures
        r@ == holds_after_removal(h@, removed),
{
    let mut kept: Vec<u8> = Vec::new();
    let mut i: usize = 0;
    assert(h@.take(0) =~= Seq::<u8>::empty());
    while i < h.len()
        invariant
            i <= h@.len(),
            kept@ == holds_after_removal(h@.take(i as int), removed),
        decreases h.len() - i,
    {
        let x = h[i];
        assert(h@.take(i + 1).drop_last() =~= h@.take(i as int));
        if x != removed {
            if x > removed {
                kept.push(x - 1);
            } else {
                kept.push(x);
            }
        }
        i = i + 1;
    }
    assert(h@.take(h@.len() as int) =~= h@);
    kept
}

impl KeyMapping {
    /// Switches the target mode (0 single, 1 multi, 2 sequence). Switching
    /// to the single mode keeps only the first target key; switching from
    /// the sequence mode to the multi mode drops repeated keys.
    pub fn set_target_mode(&mut self, mode: u8)
        requires
            mode <= 2,
        ensures
            final(self)@ == (MappingView {
                target_mode: mode,
                target_keys: keys_for_mode(old(self)@.target_keys, old(self).target_mode, mode),
                ..old(self)@
            }),
    {
        let from = self.target_mode;
        if mode == from {
            return;
        }
        self.target_mode = mode;
        if mode == 0 {
            if self.target_keys.len() > 1 {
                let first = self.target_keys.as_slice()[0].clone();
                self.target_keys.clear();
                self.target_keys.push(first);
                assert(texts(self.target_keys@) =~= seq![texts(old(self).target_keys@)[0]]);
            }
        } else if mode == 1 && from == 2 {
            let kept = dedup_texts(self.target_keys.as_slice());
            self.target_keys = KeyList::from_vec(kept);
        }
    }

    /// Takes the interval typed for this mapping: a number raised to at
    /// least 5 ms. Text that is not a number changes nothing. Tells whether
    /// the text was taken.
    pub fn edit_interval(&mut self, text: &str) -> (taken: bool)
        ensures
            taken == u64_of(text@) is Some,
            final(self)@ == match u64_of(text@) {
                Some(v) => MappingView { interval: Some(at_least(v, 5)), ..old(self)@ },
                None => old(self)@,
            },
    {
        match read_u64(text) {
            Some(v) => {
                self.interval = Some(if v < 5 { 5 } else { v });
                true
            },
            None => false,
        }
    }

    /// Takes the press duration typed for this mapping: a number raised to
    /// at least 2 ms.
    pub fn edit_event_duration(&mut self, text: &str) -> (taken: bool)
        ensures
            taken == u64_of(text@) is Some,
            final(self)@ == match u64_of(text@) {
                Some(v) => MappingView { event_duration: Some(at_least(v, 2)), ..old(self)@ },
                None => old(self)@,
            },
    {
        match read_u64(text) {
            Some(v) => {
                self.event_duration = Some(if v < 2 { 2 } else { v });
                true
            },
            None => false,
        }
    }

    /// Takes the move speed typed for this mapping, brought into
    /// `1 ..= max_speed` (100 for mouse movement, 1200 for scrolling).
    pub fn edit_move_speed(&mut self, text: &str, max_speed: i32) -> (taken: bool)
        requires
            max_speed >= 1,
        ensures
            taken == i32_of(text@) is Some,
            final(self)@ == match i32_of(text@) {
                Some(v) => MappingView { move_speed: clamp_i32(v, 1, max_speed), ..old(self)@ },
                None => old(self)@,
            },
    {
        match read_i32(text) {
            Some(v) => {
                self.move_speed = if v < 1 {
                    1
                } else if v > max_speed {
                    max_speed
                } else {
                    v
                };
                true
            },
            None => false,
        }
    }

    /// Takes the sequence window typed for this mapping: a number raised to
    /// at least 50 ms.
    pub fn edit_sequence_window(&mut self, text: &str) -> (taken: bool)
        ensures
            taken == u64_of(text@) is Some,
            final(self)@ == match u64_of(text@) {
                Some(v) => MappingView { sequence_window_ms: at_least(v, 50), ..old(self)@ },
                None => old(self)@,
            },
    {
        match read_u64(text) {
            Some(v) => {
                self.sequence_window_ms = if v < 50 { 50 } else { v };
                true
            },
            None => false,
        }
    }

    /// Sets the rule properties chosen in the rule properties dialog: the
    /// indices of target keys that stay held and the keys appended after
    /// the body, each dropped (`None`) when empty.
    pub fn set_rule_properties(&mut self, hold_indices: Vec<u8>, append_keys: Vec<String>)
        ensures
            final(self)@ == (MappingView {
                hold_indices: if hold_indices@.len() == 0 {
                    None
                } else {
                    Some(hold_indices@)
                },
                append_keys: if append_keys@.len() == 0 {
                    None
                } else {
                    Some(texts(append_keys@))
                },
                ..old(self)@
            }),
    {
        self.hold_indices = if hold_indices.len() == 0 {
            None
        } else {
            Some(IndexList::from_vec(hold_indices))
        };
        self.append_keys = if append_keys.len() == 0 {
            None
        } else {
            Some(KeyList::from_vec(append_keys))
        };
    }
}

/// A global setting that is edited as a number in the settings dialog.
#[derive(Debug, Clone, Copy, PartialEq, Eq, Structural)]
pub enum SettingField {
    /// Input timeout (ms), taken as typed.
    InputTimeout,
    /// Default repeat interval (ms), at least 5.
    Interval,
    /// Default press duration (ms), at least 2.
    EventDuration,
    /// Noise floor of a mouse event (px), at least 1.
    MouseMovePerEventMin,
    /// Motion that fires a directional trigger (px), at least 1.
    MouseMoveMinTrigger,
    /// Reverse motion before a direction fires again (px), at least 1.
    MouseMoveRearm,
    /// Number of turbo workers (0 = one per core), taken as typed.
    WorkerCount,
}

/// The configuration after `text` is typed into the setting `field`, or
/// `None` when the text does not read as a number of the field's type.
pub open spec fn setting_edit(c: AppConfig, field: SettingField, text: Seq<char>) -> Option<AppConfig> {
    match field {
        SettingField::InputTimeout => match u64_of(text) {
            Some(v) => Some(AppConfig { input_timeout: v, ..c }),
            None => None,
        },
        SettingField::Interval => match u64_of(text) {
            Some(v) => Some(AppConfig { interval: at_least(v, 5), ..c }),
            None => None,
        },
        SettingField::EventDuration => match u64_of(text) {
            Some(v) => Some(AppConfig { event_duration: at_least(v, 2), ..c }),
            None => None,
        },
        SettingField::MouseMovePerEventMin => match u32_of(text) {
            Some(v) => Some(AppConfig { mouse_move_per_event_min_px: at_least_u32(v, 1), ..c }),
            None => None,
        },
        SettingField::MouseMoveMinTrigger => match u32_of(text) {
            Some(v) => Some(AppConfig { mouse_move_min_trigger_px: at_least_u32(v, 1), ..c }),
            None => None,
        },
        SettingField::MouseMoveRearm => match u32_of(text) {
            Some(v) => Some(AppConfig { mouse_move_rearm_px: at_least_u32(v, 1), ..c }),
            None => None,
        },
        SettingField::WorkerCount => match usize_of(text) {
            Some(v) => Some(AppConfig { worker_count: v, ..c }),
            None => None,
        },
    }
}

impl AppConfig {
    /// Takes the text typed into a numeric setting; text that does not
    /// read as a number of the field's type changes nothing. Tells whether
    /// the text was taken.
    pub fn edit_setting(&mut self, field: SettingField, text: &str) -> (taken: bool)
        ensures
            match setting_edit(*old(self), field, text@) {
                Some(c) => taken && *final(self) == c,
                None => !taken && *final(self) == *old(self),
            },
    {
        match field {
            SettingField::InputTimeout => match read_u64(text) {
                Some(v) => {
                    self.input_timeout = v;
                    true
                },
                None => false,
            },
            SettingField::Interval => match read_u64(text) {
                Some(v) => {
                    self.interval = if v < 5 { 5 } else { v };
                    true
                },
                None => false,
            },
            SettingField::EventDuration => match read_u64(text) {
                Some(v) => {
                    self.event_duration = if v < 2 { 2 } else { v };
                    true
                },
                None => false,
            },
            SettingField::MouseMovePerEventMin => match read_u32(text) {
                Some(v) => {
                    self.mouse_move_per_event_min_px = if v < 1 { 1 } else { v };
                    true
                },
                None => false,
            },
            SettingField::MouseMoveMinTrigger => match read_u32(text) {
                Some(v) => {
                    self.mouse_move_min_trigger_px = if v < 1 { 1 } else { v };
                    true
                },
                None => false,
            },
            SettingField::MouseMoveRearm => match read_u32(text) {
                Some(v) => {
                    self.mouse_move_rearm_px = if v < 1 { 1 } else { v };
                    true
                },
                None => false,
            },
            SettingField::WorkerCount => match read_usize(text) {
                Some(v) => {
                    self.worker_count = v;
                    true
                },
                None => false,
            },
        }
    }
}

/// The non-empty texts of `v`, in order.
pub open spec fn non_empty(v: Seq<Seq<char>>) -> Seq<Seq<char>>
    decreases v.len(),
{
    if v.len() == 0 {
        v
    } else {
        let r = non_empty(v.drop_last());
        if v.last().len() == 0 {
            r
        } else {
            r.push(v.last())
        }
    }
}

/// Each text trimmed.
pub open spec fn trim_all(v: Seq<Seq<char>>) -> Seq<Seq<char>> {
    v.map_values(|s: Seq<char>| trimmed(s))
}

/// The keys of an input sequence as the settings dialog lists them: the
/// pieces between commas, trimmed, with empty pieces dropped.
pub open spec fn sequence_key_list(s: Seq<char>) -> Seq<Seq<char>> {
    non_empty(trim_all(split_on(s, ',')))
}

/// The keys of a mapping's input sequence; none without one.
pub open spec fn mapping_sequence_keys(m: MappingView) -> Seq<Seq<char>> {
    match m.trigger_sequence {
        Some(s) => sequence_key_list(s),
        None => Seq::empty(),
    }
}

/// A mapping after the key at `index` of its input sequence is deleted:
/// the remaining keys joined with commas form the sequence, and the first
/// of them (or nothing) is the trigger key.
pub open spec fn sequence_key_removed(m: MappingView, index: int) -> MappingView {
    let rest = mapping_sequence_keys(m).remove(index);
    MappingView {
        trigger_sequence: Some(join(rest, seq![','])),
        trigger_key: if rest.len() > 0 {
            rest[0]
        } else {
            Seq::empty()
        },
        ..m
    }
}

impl KeyMapping {
    /// The keys of this mapping's input sequence as the settings dialog
    /// lists them.
    pub fn sequence_keys(&self) -> (r: Vec<String>)
        ensures
            texts(r@) == mapping_sequence_keys(self@),
    {
        let mut out: Vec<String> = Vec::new();
        match &self.trigger_sequence {
            None => {
                assert(texts(out@) =~= Seq::<Seq<char>>::empty());
                out
            },
            Some(seq) => {
                let pieces = split_at_char(seq.as_str(), ',');
                let ghost all = trim_all(texts(pieces@));
                let mut i: usize = 0;
                assert(all.take(0) =~= Seq::<Seq<char>>::empty());
                while i < pieces.len()
                    invariant
                        i <= pieces@.len(),
                        all == trim_all(texts(pieces@)),
                        texts(out@) == non_empty(all.take(i as int)),
                    decreases pieces.len() - i,
                {
                    let t = trim(pieces[i].as_str());
                    assert(all.take(i + 1).drop_last() =~= all.take(i as int));
                    assert(all.take(i + 1).last() == t@);
                    if !t.as_str().is_empty() {
                        let ghost before = texts(out@);
                        out.push(t);
                        assert(texts(out@) =~= before.push(all[i as int]));
                    }
                    i = i + 1;
                }
                assert(all.take(pieces@.len() as int) =~= all);
                out
            },
        }
    }

    /// Deletes the key at `index` from this mapping's input sequence; the
    /// first remaining key becomes the trigger key.
    pub fn remove_sequence_key(&mut self, index: usize)
        requires
            index < mapping_sequence_keys(old(self)@).len(),
        ensures
            final(self)@ == sequence_key_removed(old(self)@, index as int),
    {
        let mut keys = self.sequence_keys();
        keys.remove(index);
        assert(texts(keys@) =~= mapping_sequence_keys(old(self)@).remove(index as int));
        let mut joined = String::new();
        let ghost empty = joined@;
        assert(empty =~= Seq::<char>::empty());
        let comma = ",";
        proof {
            reveal_strlit(",");
        }
        assert(comma@ =~= seq![',']);
        let parts = keys.as_slice();
        push_joined(&mut joined, parts, comma, false);
        assert(parts@ == keys@);
        assert(joined@ =~= join(texts(keys@), seq![',']));
        self.trigger_key = if keys.len() > 0 {
            keys[0].clone()
        } else {
            String::new()
        };
        self.trigger_sequence = Some(joined);
    }
}

/// The short form in which the settings dialog shows a list of sequence
/// keys: up to three keys joined with arrows, else the number of keys and
/// the last one.
pub open spec fn sequence_preview_text(keys: Seq<Seq<char>>) -> Seq<char> {
    if keys.len() <= 3 {
        join(keys, " → "@)
    } else {
        decimal(keys.len()) + " keys: ... → "@ + keys.last()
    }
}

/// The short form of a list of sequence keys.
pub fn sequence_preview(keys: &[String]) -> (r: String)
    ensures
        r@ == sequence_preview_text(texts(keys@)),
{
    let mut out = String::new();
    if keys.len() <= 3 {
        push_joined(&mut out, keys, " → ", false);
    } else {
        push_decimal(&mut out, keys.len() as u64);
        push_str(&mut out, " keys: ... → ");
        push_str(&mut out, keys[keys.len() - 1].as_str());
    }
    assert(out@ =~= sequence_preview_text(texts(keys@)));
    out
}

/// The hold marks of a mapping after the target key at `index` is
/// deleted: shifted as [`holds_after_removal`] states, and dropped when
/// none is left.
pub open spec fn marks_after_removal(h: Option<Seq<u8>>, index: usize) -> Option<Seq<u8>> {
    match h {
        None => None,
        Some(marks) => {
            let r = holds_after_removal(marks, index as u8);
            if r.len() == 0 {
                None
            } else {
                Some(r)
            }
        },
    }
}

impl KeyMapping {
    /// Deletes the target key at `index` (nothing when there is none) and
    /// rewrites the hold marks so that each stays on its key: a mark on the
    /// deleted position is dropped, marks above it move down, and no marks
    /// at all become `None`.
    pub fn delete_target_key(&mut self, index: usize)
        ensures
            final(self)@ == (MappingView {
                target_keys: if index < old(self)@.target_keys.len() {
                    old(self)@.target_keys.remove(index as int)
                } else {
                    old(self)@.target_keys
                },
                hold_indices: marks_after_removal(old(self)@.hold_indices, index),
                ..old(self)@
            }),
    {
        self.remove_target_key_at(index);
        proof {
            if index < old(self)@.target_keys.len() {
                assert(texts(self.target_keys@) =~= old(self)@.target_keys.remove(index as int));
            }
        }
        let marks = match &self.hold_indices {
            None => None,
            Some(h) => {
                let kept = shift_marks(h.as_slice(), index as u8);
                if kept.len() == 0 {
                    None
                } else {
                    Some(IndexList::from_vec(kept))
                }
            },
        };
        self.hold_indices = marks;
    }

    /// Switches between a single-key trigger and a sequence trigger. Leaving
    /// the sequence drops it; entering it starts the sequence with the
    /// trigger key (an empty sequence when there is none). Choosing the
    /// kind the mapping already has changes nothing.
    pub fn set_sequence_trigger(&mut self, sequence: bool)
        ensures
            final(self)@ == if sequence == (old(self).trigger_sequence is Some) {
                old(self)@
            } else if !sequence {
                MappingView { trigger_sequence: None, ..old(self)@ }
            } else {
                MappingView { trigger_sequence: Some(old(self)@.trigger_key), ..old(self)@ }
            },
    {
        let is_sequence = self.trigger_sequence.is_some();
        if sequence == is_sequence {
            return;
        }
        if !sequence {
            self.trigger_sequence = None;
        } else if !self.trigger_key.as_str().is_empty() {
            self.trigger_sequence = Some(self.trigger_key.clone());
        } else {
            assert(self.trigger_key@ =~= Seq::<char>::empty());
            self.trigger_sequence = Some(String::new());
            self.trigger_key = String::new();
        }
    }

    /// Clears the trigger: the trigger key, and the input sequence when the
    /// mapping has one.
    pub fn clear_trigger(&mut self)
        ensures
            final(self)@ == (MappingView {
                trigger_key: Seq::empty(),
                trigger_sequence: match old(self)@.trigger_sequence {
                    Some(_) => Some(Seq::<char>::empty()),
                    None => None,
                },
                ..old(self)@
            }),
    {
        if self.trigger_sequence.is_some() {
            self.trigger_sequence = Some(String::new());
        }
        self.trigger_key = String::new();
    }
}

impl AppConfig {
    /// Deletes the mapping at `index`; everything else stays.
    pub fn remove_mapping(&mut self, index: usize)
        requires
            index < old(self).mappings@.len(),
        ensures
            final(self).mappings@ == old(self).mappings@.remove(index as int),
            final(self).presets == old(self).presets,
            final(self).current_preset == old(self).current_preset,
            same_apart_from_presets(*old(self), *final(self)),
    {
        self.mappings.remove(index);
    }
}

} // verus!
