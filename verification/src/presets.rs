//! Named presets of mappings: saving the current mappings under a name,
//! loading, renaming and deleting presets, choosing the active preset and
//! writing the current mappings back into it.

use vstd::prelude::*;

use crate::config::{
    clone_mappings, is_default_config, mapping_views, preset_views, AppConfig, KeyMapping, Preset,
    PresetView,
};
use crate::text::str_equal;

verus! {

/// `i` is the first position of a preset named `name`.
pub open spec fn first_named(p: Seq<PresetView>, name: Seq<char>, i: int) -> bool {
    &&& 0 <= i < p.len()
    &&& p[i].name == name
    &&& forall|j: int| 0 <= j < i ==> #[trigger] p[j].name != name
}

/// Some preset is named `name`.
pub open spec fn has_preset(p: Seq<PresetView>, name: Seq<char>) -> bool {
    exists|i: int| 0 <= i < p.len() && #[trigger] p[i].name == name
}

/// No two presets share a name.
pub open spec fn preset_names_distinct(p: Seq<PresetView>) -> bool {
    forall|i: int, j: int|
        0 <= i < p.len() && 0 <= j < p.len() && i != j ==> #[trigger] p[i].name != #[trigger] p[j].name
}

/// The active preset is none (the empty name) or names a preset.
pub open spec fn active_preset_valid(c: AppConfig) -> bool {
    c.current_preset@.len() == 0 || has_preset(preset_views(c.presets@), c.current_preset@)
}

/// Two configurations agree on everything apart from their mappings, their
/// presets and their active preset.
pub open spec fn same_apart_from_presets(a: AppConfig, b: AppConfig) -> bool {
    &&& a.show_tray_icon == b.show_tray_icon
    &&& a.show_notifications == b.show_notifications
    &&& a.always_on_top == b.always_on_top
    &&& a.dark_mode == b.dark_mode
    &&& a.language == b.language
    &&& a.switch_key == b.switch_key
    &&& a.sequence_finalize_key == b.sequence_finalize_key
    &&& a.xinput_stick_deadzone == b.xinput_stick_deadzone
    &&& a.xinput_trigger_threshold == b.xinput_trigger_threshold
    &&& a.mouse_move_per_event_min_px == b.mouse_move_per_event_min_px
    &&& a.mouse_move_min_trigger_px == b.mouse_move_min_trigger_px
    &&& a.mouse_move_rearm_px == b.mouse_move_rearm_px
    &&& a.input_timeout == b.input_timeout
    &&& a.interval == b.interval
    &&& a.event_duration == b.event_duration
    &&& a.worker_count == b.worker_count
    &&& a.process_whitelist == b.process_whitelist
    &&& a.hid_baselines == b.hid_baselines
    &&& a.rawinput_capture_mode == b.rawinput_capture_mode
    &&& a.xinput_capture_mode == b.xinput_capture_mode
    &&& a.device_api_preferences == b.device_api_preferences
}

/// The presets `p` with the first preset named `name` holding `mappings`;
/// `p` itself when no preset has that name.
pub open spec fn with_preset_mappings(
    p: Seq<PresetView>,
    name: Seq<char>,
    mappings: Seq<crate::config::MappingView>,
) -> Seq<PresetView> {
    if has_preset(p, name) {
        let i = choose|i: int| first_named(p, name, i);
        p.update(i, PresetView { name, mappings })
    } else {
        p
    }
}

/// `after` is `before` with its mappings saved as the preset `name`: the
/// first preset of that name takes them, or a preset of that name holding
/// them is appended when there is none.
pub open spec fn preset_saved(before: AppConfig, after: AppConfig, name: Seq<char>) -> bool {
    let p = preset_views(before.presets@);
    let m = mapping_views(before.mappings@);
    &&& preset_views(after.presets@) == if has_preset(p, name) {
        with_preset_mappings(p, name, m)
    } else {
        p.push(PresetView { name, mappings: m })
    }
    &&& after.mappings == before.mappings
    &&& after.current_preset == before.current_preset
    &&& same_apart_from_presets(before, after)
}

/// `after` is `before` with the preset at `i` loaded: its mappings become
/// the current mappings and it becomes the active preset.
pub open spec fn preset_loaded(before: AppConfig, after: AppConfig, i: int) -> bool {
    let p = preset_views(before.presets@);
    &&& 0 <= i < p.len()
    &&& mapping_views(after.mappings@) == p[i].mappings
    &&& after.current_preset@ == p[i].name
    &&& after.presets == before.presets
    &&& same_apart_from_presets(before, after)
}

/// A preset may take the name `new_name`: it is not empty and no preset
/// has it yet.
pub open spec fn rename_allowed(p: Seq<PresetView>, new_name: Seq<char>) -> bool {
    new_name.len() > 0 && !has_preset(p, new_name)
}

/// `after` is `before` with the preset at `i` renamed to `new_name`; the
/// active preset follows the rename.
pub open spec fn preset_renamed(before: AppConfig, after: AppConfig, i: int, new_name: Seq<char>) -> bool {
    let p = preset_views(before.presets@);
    &&& 0 <= i < p.len()
    &&& preset_views(after.presets@) == p.update(
        i,
        PresetView { name: new_name, mappings: p[i].mappings },
    )
    &&& after.current_preset@ == if before.current_preset@ == p[i].name {
        new_name
    } else {
        before.current_preset@
    }
    &&& after.mappings == before.mappings
    &&& same_apart_from_presets(before, after)
}

/// `after` is `before` without the preset at `i`; the active preset is
/// cleared when it was that preset's name.
pub open spec fn preset_deleted(before: AppConfig, after: AppConfig, i: int) -> bool {
    let p = preset_views(before.presets@);
    &&& 0 <= i < p.len()
    &&& preset_views(after.presets@) == p.remove(i)
    &&& after.current_preset@ == if before.current_preset@ == p[i].name {
        Seq::<char>::empty()
    } else {
        before.current_preset@
    }
    &&& after.mappings == before.mappings
    &&& same_apart_from_presets(before, after)
}

/// `after` is `before` with no active preset; mappings and presets stay.
pub open spec fn preset_cleared(before: AppConfig, after: AppConfig) -> bool {
    &&& after.current_preset@ == Seq::<char>::empty()
    &&& after.mappings == before.mappings
    &&& after.presets == before.presets
    &&& same_apart_from_presets(before, after)
}

/// `after` is `before` with the current mappings written into the active
/// preset (the first preset of that name), when there is an active preset
/// and a preset of its name.
pub open spec fn active_preset_synced(before: AppConfig, after: AppConfig) -> bool {
    let p = preset_views(before.presets@);
    let cur = before.current_preset@;
    &&& preset_views(after.presets@) == if cur.len() > 0 {
        with_preset_mappings(p, cur, mapping_views(before.mappings@))
    } else {
        p
    }
    &&& after.mappings == before.mappings
    &&& after.current_preset == before.current_preset
    &&& same_apart_from_presets(before, after)
}

/// Only one position is the first of a name.
proof fn lemma_first_named_unique(p: Seq<PresetView>, name: Seq<char>, i: int, k: int)
    requires
        first_named(p, name, i),
        first_named(p, name, k),
    ensures
        i == k,
{
    if i < k {
        assert(p[i].name != name);
    } else if k < i {
        assert(p[k].name != name);
    }
}

/// A name that some preset has has a first position.
proof fn lemma_first_named_exists(p: Seq<PresetView>, name: Seq<char>)
    requires
        has_preset(p, name),
    ensures
        exists|i: int| first_named(p, name, i),
    decreases p.len(),
{
    if p[0].name == name {
        assert(first_named(p, name, 0));
    } else {
        let q = p.drop_first();
        let w = choose|i: int| 0 <= i < p.len() && #[trigger] p[i].name == name;
        assert(q[w - 1].name == name);
        lemma_first_named_exists(q, name);
        let k = choose|k: int| first_named(q, name, k);
        assert forall|j: int| 0 <= j < k + 1 implies #[trigger] p[j].name != name by {
            if j > 0 {
                assert(p[j] == q[j - 1]);
            }
        }
        assert(first_named(p, name, k + 1));
    }
}

/// The first preset of a name in `with_preset_mappings(p, name, m)`: the
/// same position as in `p`, now holding `m`.
proof fn lemma_with_preset_mappings(p: Seq<PresetView>, name: Seq<char>, m: Seq<crate::config::MappingView>)
    requires
        has_preset(p, name),
    ensures
        exists|k: int|
            first_named(p, name, k) && with_preset_mappings(p, name, m) == p.update(
                k,
                PresetView { name, mappings: m },
            ),
        forall|k: int|
            first_named(p, name, k) ==> first_named(with_preset_mappings(p, name, m), name, k)
                && with_preset_mappings(p, name, m)[k].mappings == m,
        forall|j: int|
            0 <= j < p.len() ==> #[trigger] with_preset_mappings(p, name, m)[j].name == p[j].name,
        with_preset_mappings(p, name, m).len() == p.len(),
{
    lemma_first_named_exists(p, name);
    let k = choose|k: int| first_named(p, name, k);
    assert forall|k2: int| first_named(p, name, k2) implies first_named(
        with_preset_mappings(p, name, m),
        name,
        k2,
    ) && with_preset_mappings(p, name, m)[k2].mappings == m by {
        lemma_first_named_unique(p, name, k, k2);
        let r = with_preset_mappings(p, name, m);
        assert forall|j: int| 0 <= j < k2 implies #[trigger] r[j].name != name by {
            assert(r[j] == p[j]);
        }
    }
}

/// After the mappings are saved under a name, the first preset of that
/// name holds them.
pub proof fn lemma_saved_preset_found(before: AppConfig, after: AppConfig, name: Seq<char>)
    requires
        preset_saved(before, after, name),
    ensures
        exists|i: int|
            first_named(preset_views(after.presets@), name, i) && preset_views(after.presets@)[i].mappings
                == mapping_views(before.mappings@),
{
    let p = preset_views(before.presets@);
    let m = mapping_views(before.mappings@);
    let q = preset_views(after.presets@);
    if has_preset(p, name) {
        lemma_with_preset_mappings(p, name, m);
        let k = choose|k: int| first_named(p, name, k);
        assert(first_named(q, name, k) && q[k].mappings == m);
    } else {
        let n = p.len() as int;
        assert forall|j: int| 0 <= j < n implies #[trigger] q[j].name != name by {
            assert(q[j] == p[j]);
        }
        assert(first_named(q, name, n) && q[n].mappings == m);
    }
}

/// Saving the mappings under a name and then loading the preset of that
/// name gives back the mappings that were saved.
pub proof fn lemma_saved_preset_loads_back(
    a: AppConfig,
    b: AppConfig,
    c: AppConfig,
    name: Seq<char>,
    i: int,
)
    requires
        preset_saved(a, b, name),
        first_named(preset_views(b.presets@), name, i),
        preset_loaded(b, c, i),
    ensures
        mapping_views(c.mappings@) == mapping_views(a.mappings@),
        c.current_preset@ == name,
{
    lemma_saved_preset_found(a, b, name);
    let k = choose|k: int|
        first_named(preset_views(b.presets@), name, k) && preset_views(b.presets@)[k].mappings
            == mapping_views(a.mappings@);
    lemma_first_named_unique(preset_views(b.presets@), name, i, k);
}

/// When a preset is active, writing the mappings into it and then loading
/// it gives back the mappings.
pub proof fn lemma_synced_preset_loads_back(a: AppConfig, b: AppConfig, c: AppConfig, i: int)
    requires
        active_preset_synced(a, b),
        a.current_preset@.len() > 0,
        first_named(preset_views(b.presets@), a.current_preset@, i),
        preset_loaded(b, c, i),
    ensures
        mapping_views(c.mappings@) == mapping_views(a.mappings@),
        c.current_preset@ == a.current_preset@,
{
    let p = preset_views(a.presets@);
    let cur = a.current_preset@;
    let m = mapping_views(a.mappings@);
    if cur.len() > 0 && has_preset(p, cur) {
        lemma_with_preset_mappings(p, cur, m);
        let k = choose|k: int| first_named(p, cur, k);
        assert(first_named(preset_views(b.presets@), cur, k));
        lemma_first_named_unique(preset_views(b.presets@), cur, i, k);
    } else {
        assert(preset_views(b.presets@) == p);
        assert(p[i].name == cur);
    }
}

/// Saving the mappings under a name keeps the preset names distinct.
pub proof fn lemma_save_keeps_names_distinct(before: AppConfig, after: AppConfig, name: Seq<char>)
    requires
        preset_saved(before, after, name),
        preset_names_distinct(preset_views(before.presets@)),
    ensures
        preset_names_distinct(preset_views(after.presets@)),
{
    let p = preset_views(before.presets@);
    let q = preset_views(after.presets@);
    if has_preset(p, name) {
        lemma_with_preset_mappings(p, name, mapping_views(before.mappings@));
        assert forall|i: int, j: int|
            0 <= i < q.len() && 0 <= j < q.len() && i != j implies #[trigger] q[i].name
            != #[trigger] q[j].name by {
            assert(q[i].name == p[i].name);
            assert(q[j].name == p[j].name);
        }
    } else {
        assert forall|i: int, j: int|
            0 <= i < q.len() && 0 <= j < q.len() && i != j implies #[trigger] q[i].name
            != #[trigger] q[j].name by {
            if i < p.len() && j < p.len() {
                assert(q[i] == p[i] && q[j] == p[j]);
            } else if i < p.len() {
                assert(q[i] == p[i]);
                assert(p[i].name != name);
            } else {
                assert(q[j] == p[j]);
                assert(p[j].name != name);
            }
        }
    }
}

/// Renaming a preset keeps the preset names distinct.
pub proof fn lemma_rename_keeps_names_distinct(
    before: AppConfig,
    after: AppConfig,
    i: int,
    new_name: Seq<char>,
)
    requires
        rename_allowed(preset_views(before.presets@), new_name),
        preset_renamed(before, after, i, new_name),
        preset_names_distinct(preset_views(before.presets@)),
    ensures
        preset_names_distinct(preset_views(after.presets@)),
{
    let p = preset_views(before.presets@);
    let q = preset_views(after.presets@);
    assert forall|x: int, y: int|
        0 <= x < q.len() && 0 <= y < q.len() && x != y implies #[trigger] q[x].name
        != #[trigger] q[y].name by {
        if x != i && y != i {
            assert(q[x] == p[x] && q[y] == p[y]);
        } else if x == i {
            assert(q[y] == p[y]);
            assert(p[y].name != new_name);
        } else {
            assert(q[x] == p[x]);
            assert(p[x].name != new_name);
        }
    }
}

/// Deleting a preset keeps the preset names distinct.
pub proof fn lemma_delete_keeps_names_distinct(before: AppConfig, after: AppConfig, i: int)
    requires
        preset_deleted(before, after, i),
        preset_names_distinct(preset_views(before.presets@)),
    ensures
        preset_names_distinct(preset_views(after.presets@)),
{
    let p = preset_views(before.presets@);
    let q = preset_views(after.presets@);
    assert forall|x: int, y: int|
        0 <= x < q.len() && 0 <= y < q.len() && x != y implies #[trigger] q[x].name
        != #[trigger] q[y].name by {
        let px = if x < i { x } else { x + 1 };
        let py = if y < i { y } else { y + 1 };
        assert(q[x] == p[px] && q[y] == p[py]);
    }
}

/// Writing the mappings into the active preset keeps the preset names.
pub proof fn lemma_sync_keeps_names(before: AppConfig, after: AppConfig)
    requires
        active_preset_synced(before, after),
    ensures
        preset_views(after.presets@).len() == preset_views(before.presets@).len(),
        forall|j: int|
            0 <= j < preset_views(before.presets@).len() ==> #[trigger] preset_views(
                after.presets@,
            )[j].name == preset_views(before.presets@)[j].name,
{
    let p = preset_views(before.presets@);
    let cur = before.current_preset@;
    if cur.len() > 0 && has_preset(p, cur) {
        lemma_with_preset_mappings(p, cur, mapping_views(before.mappings@));
    }
}

/// Saving the mappings under a name keeps the active preset valid.
pub proof fn lemma_save_keeps_active_valid(before: AppConfig, after: AppConfig, name: Seq<char>)
    requires
        preset_saved(before, after, name),
        active_preset_valid(before),
    ensures
        active_preset_valid(after),
{
    let p = preset_views(before.presets@);
    let q = preset_views(after.presets@);
    let cur = before.current_preset@;
    if cur.len() > 0 {
        let w = choose|w: int| 0 <= w < p.len() && #[trigger] p[w].name == cur;
        if has_preset(p, name) {
            lemma_with_preset_mappings(p, name, mapping_views(before.mappings@));
            assert(q[w].name == cur);
        } else {
            assert(q[w] == p[w]);
        }
    }
}

/// Loading a preset leaves a valid active preset.
pub proof fn lemma_load_keeps_active_valid(before: AppConfig, after: AppConfig, i: int)
    requires
        preset_loaded(before, after, i),
    ensures
        active_preset_valid(after),
{
    let q = preset_views(after.presets@);
    assert(q[i].name == after.current_preset@);
}

/// Renaming a preset keeps the active preset valid.
pub proof fn lemma_rename_keeps_active_valid(
    before: AppConfig,
    after: AppConfig,
    i: int,
    new_name: Seq<char>,
)
    requires
        preset_renamed(before, after, i, new_name),
        active_preset_valid(before),
    ensures
        active_preset_valid(after),
{
    let p = preset_views(before.presets@);
    let q = preset_views(after.presets@);
    let cur = before.current_preset@;
    if cur == p[i].name {
        assert(q[i].name == new_name);
    } else if cur.len() > 0 {
        let w = choose|w: int| 0 <= w < p.len() && #[trigger] p[w].name == cur;
        assert(w != i);
        assert(q[w] == p[w]);
    }
}

/// Deleting a preset keeps the active preset valid.
pub proof fn lemma_delete_keeps_active_valid(before: AppConfig, after: AppConfig, i: int)
    requires
        preset_deleted(before, after, i),
        active_preset_valid(before),
    ensures
        active_preset_valid(after),
{
    let p = preset_views(before.presets@);
    let q = preset_views(after.presets@);
    let cur = before.current_preset@;
    if cur != p[i].name && cur.len() > 0 {
        let w = choose|w: int| 0 <= w < p.len() && #[trigger] p[w].name == cur;
        assert(w != i);
        if w < i {
            assert(q[w] == p[w]);
        } else {
            assert(q[w - 1] == p[w]);
        }
    }
}

/// Writing the mappings into the active preset keeps it valid.
pub proof fn lemma_sync_keeps_active_valid(before: AppConfig, after: AppConfig)
    requires
        active_preset_synced(before, after),
        active_preset_valid(before),
    ensures
        active_preset_valid(after),
{
    lemma_sync_keeps_names(before, after);
    let p = preset_views(before.presets@);
    let cur = before.current_preset@;
    if cur.len() > 0 {
        let w = choose|w: int| 0 <= w < p.len() && #[trigger] p[w].name == cur;
        assert(preset_views(after.presets@)[w].name == cur);
    }
}

/// The default configuration has distinct preset names and a valid
/// active preset (none).
pub proof fn lemma_default_presets_valid(c: AppConfig)
    requires
        is_default_config(c),
    ensures
        preset_names_distinct(preset_views(c.presets@)),
        active_preset_valid(c),
{
}

/// The position of the first preset named `name`.
fn find_preset(presets: &Vec<Preset>, name: &str) -> (r: Option<usize>)
    ensures
        match r {
            Some(i) => first_named(preset_views(presets@), name@, i as int),
            None => !has_preset(preset_views(presets@), name@),
        },
{
    let ghost p = preset_views(presets@);
    let mut i: usize = 0;
    while i < presets.len()
        invariant
            i <= presets@.len(),
            p == preset_views(presets@),
            forall|j: int| 0 <= j < i ==> #[trigger] p[j].name != name@,
        decreases presets.len() - i,
    {
        if str_equal(presets[i].name.as_str(), name) {
            return Some(i);
        }
        i = i + 1;
    }
    None
}

/// Replaces the mappings of the preset at `i`.
fn store_mappings(presets: &mut Vec<Preset>, i: usize, mappings: Vec<KeyMapping>)
    requires
        i < old(presets)@.len(),
    ensures
        preset_views(final(presets)@) == preset_views(old(presets)@).update(
            i as int,
            PresetView { name: preset_views(old(presets)@)[i as int].name, mappings: mapping_views(mappings@) },
        ),
{
    let name = presets[i].name.clone();
    presets.set(i, Preset { name, mappings });
    assert(preset_views(presets@) =~= preset_views(old(presets)@).update(
        i as int,
        PresetView { name: preset_views(old(presets)@)[i as int].name, mappings: mapping_views(mappings@) },
    ));
}

impl AppConfig {
    /// Saves the current mappings as the preset `name`: the first preset of
    /// that name takes them, or a new preset is appended. An empty name
    /// saves nothing.
    pub fn save_preset(&mut self, name: String) -> (saved: bool)
        ensures
            saved == (name@.len() > 0),
            saved ==> preset_saved(*old(self), *final(self), name@),
            !saved ==> *final(self) == *old(self),
    {
        if name.as_str().is_empty() {
            return false;
        }
        let ghost p = preset_views(self.presets@);
        let mappings = clone_mappings(&self.mappings);
        match find_preset(&self.presets, name.as_str()) {
            Some(i) => {
                proof {
                    let k = choose|k: int| first_named(p, name@, k);
                    lemma_first_named_unique(p, name@, i as int, k);
                }
                store_mappings(&mut self.presets, i, mappings);
            },
            None => {
                self.presets.push(Preset { name, mappings });
                assert(preset_views(self.presets@) =~= p.push(
                    PresetView { name: name@, mappings: mapping_views(old(self).mappings@) },
                ));
            },
        }
        true
    }

    /// Loads the preset at `index`: its mappings become the current
    /// mappings and it becomes the active preset.
    pub fn load_preset(&mut self, index: usize)
        requires
            index < old(self).presets@.len(),
        ensures
            preset_loaded(*old(self), *final(self), index as int),
    {
        let mappings = clone_mappings(&self.presets[index].mappings);
        let name = self.presets[index].name.clone();
        self.mappings = mappings;
        self.current_preset = name;
    }

    /// Renames the preset at `index` to `new_name` when the name is not
    /// empty and no preset has it yet; the active preset follows the
    /// rename. Tells whether the preset was renamed.
    pub fn rename_preset(&mut self, index: usize, new_name: String) -> (renamed: bool)
        requires
            index < old(self).presets@.len(),
        ensures
            renamed == rename_allowed(preset_views(old(self).presets@), new_name@),
            renamed ==> preset_renamed(*old(self), *final(self), index as int, new_name@),
            !renamed ==> *final(self) == *old(self),
    {
        let ghost p = preset_views(self.presets@);
        if new_name.as_str().is_empty() {
            return false;
        }
        if find_preset(&self.presets, new_name.as_str()).is_some() {
            return false;
        }
        let follows = str_equal(self.current_preset.as_str(), self.presets[index].name.as_str());
        let old_preset = self.presets.remove(index);
        assert(old_preset@ == p[index as int]);
        if follows {
            self.current_preset = new_name.clone();
        }
        self.presets.insert(index, Preset { name: new_name, mappings: old_preset.mappings });
        assert(preset_views(self.presets@) =~= p.update(
            index as int,
            PresetView { name: new_name@, mappings: p[index as int].mappings },
        ));
        true
    }

    /// Deletes the preset at `index`; the active preset is cleared when it
    /// was that preset's name.
    pub fn delete_preset(&mut self, index: usize)
        requires
            index < old(self).presets@.len(),
        ensures
            preset_deleted(*old(self), *final(self), index as int),
    {
        let ghost p = preset_views(self.presets@);
        if str_equal(self.current_preset.as_str(), self.presets[index].name.as_str()) {
            self.current_preset = String::new();
        }
        self.presets.remove(index);
        assert(preset_views(self.presets@) =~= p.remove(index as int));
    }

    /// Chooses the active preset from the preset selector: `None` leaves no
    /// preset active and keeps the mappings, `Some(i)` loads the preset at
    /// `i`.
    pub fn select_preset(&mut self, choice: Option<usize>)
        requires
            choice matches Some(i) ==> i < old(self).presets@.len(),
        ensures
            match choice {
                Some(i) => preset_loaded(*old(self), *final(self), i as int),
                None => preset_cleared(*old(self), *final(self)),
            },
    {
        match choice {
            Some(i) => self.load_preset(i),
            None => {
                self.current_preset = String::new();
            },
        }
    }

    /// Writes the current mappings into the active preset before the
    /// configuration is saved.
    pub fn sync_active_preset(&mut self)
        ensures
            active_preset_synced(*old(self), *final(self)),
    {
        let ghost p = preset_views(self.presets@);
        if self.current_preset.as_str().is_empty() {
            return;
        }
        match find_preset(&self.presets, self.current_preset.as_str()) {
            Some(i) => {
                proof {
                    let k = choose|k: int| first_named(p, self.current_preset@, k);
                    lemma_first_named_unique(p, self.current_preset@, i as int, k);
                }
                let mappings = clone_mappings(&self.mappings);
                store_mappings(&mut self.presets, i, mappings);
            },
            None => {},
        }
    }
}

} // verus!
