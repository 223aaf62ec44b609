//! Application configuration: key mappings, presets, device settings and
//! the global timing parameters, with the rules applied when a
//! configuration is loaded.

use vstd::prelude::*;

use crate::i18n::{raw_text, CachedTranslations, Language, RawKey};
use crate::small_lists::{IndexList, KeyList};
use vstd::string::StringExecFns;

use crate::text::{sorted_unique, str_equal, strictly_sorted, texts};

verus! {

/// Device API preference for input handling.
#[derive(Debug, Clone, Copy, PartialEq, Eq, Structural)]
pub enum DeviceApiPreference {
    /// Auto-detect best API.
    Auto,
    /// Force XInput.
    XInput,
    /// Force Raw Input.
    RawInput,
}

impl Default for DeviceApiPreference {
    /// `Auto`.
    fn default() -> (r: DeviceApiPreference)
        ensures
            r == DeviceApiPreference::Auto,
    {
        DeviceApiPreference::Auto
    }
}

/// XInput capture mode strategy.
#[derive(Debug, Clone, Copy, PartialEq, Eq, Structural)]
pub enum XInputCaptureMode {
    /// Captures the most sustained input pattern.
    MostSustained,
    /// Captures the last stable input before release.
    LastStable,
    /// Prioritizes diagonal directions over straight directions with combo key support.
    DiagonalPriority,
}

impl Default for XInputCaptureMode {
    /// `DiagonalPriority`.
    fn default() -> (r: XInputCaptureMode)
        ensures
            r == XInputCaptureMode::DiagonalPriority,
    {
        XInputCaptureMode::DiagonalPriority
    }
}

/// The name of each capture mode.
pub open spec fn capture_mode_name(m: XInputCaptureMode) -> Seq<char> {
    match m {
        XInputCaptureMode::MostSustained => "MostSustained"@,
        XInputCaptureMode::LastStable => "LastStable"@,
        XInputCaptureMode::DiagonalPriority => "DiagonalPriority"@,
    }
}

/// The mode a name is read as: the name of each mode gives that mode,
/// every other text gives the default mode `DiagonalPriority`.
pub open spec fn capture_mode_from_name(s: Seq<char>) -> XInputCaptureMode {
    if s == "MostSustained"@ {
        XInputCaptureMode::MostSustained
    } else if s == "LastStable"@ {
        XInputCaptureMode::LastStable
    } else {
        XInputCaptureMode::DiagonalPriority
    }
}

impl XInputCaptureMode {
    /// The name of the mode.
    pub fn as_str(&self) -> (r: &'static str)
        ensures
            r@ == capture_mode_name(*self),
    {
        match self {
            XInputCaptureMode::MostSustained => "MostSustained",
            XInputCaptureMode::LastStable => "LastStable",
            XInputCaptureMode::DiagonalPriority => "DiagonalPriority",
        }
    }

    /// All modes, in declaration order.
    pub fn all_modes() -> (r: &'static [XInputCaptureMode])
        ensures
            r@ == seq![
                XInputCaptureMode::MostSustained,
                XInputCaptureMode::LastStable,
                XInputCaptureMode::DiagonalPriority,
            ],
    {
        let r: &'static [XInputCaptureMode] = &[
            XInputCaptureMode::MostSustained,
            XInputCaptureMode::LastStable,
            XInputCaptureMode::DiagonalPriority,
        ];
        assert(r@ =~= seq![
            XInputCaptureMode::MostSustained,
            XInputCaptureMode::LastStable,
            XInputCaptureMode::DiagonalPriority,
        ]);
        r
    }

    /// Reads a mode from its name; unknown names give the default mode.
    pub fn parse(s: &str) -> (r: XInputCaptureMode)
        ensures
            r == capture_mode_from_name(s@),
    {
        if str_equal(s, "MostSustained") {
            XInputCaptureMode::MostSustained
        } else if str_equal(s, "LastStable") {
            XInputCaptureMode::LastStable
        } else if str_equal(s, "DiagonalPriority") {
            XInputCaptureMode::DiagonalPriority
        } else {
            XInputCaptureMode::DiagonalPriority
        }
    }
}

/// The text that names each capture mode in the user interface.
pub open spec fn capture_mode_label_key(m: XInputCaptureMode) -> RawKey {
    match m {
        XInputCaptureMode::MostSustained => RawKey::CaptureModeMostSustained,
        XInputCaptureMode::LastStable => RawKey::CaptureModeLastStable,
        XInputCaptureMode::DiagonalPriority => RawKey::CaptureModeDiagonalPriority,
    }
}

impl XInputCaptureMode {
    /// The name of the mode as the settings dialog shows it.
    pub fn label(&self, t: &CachedTranslations) -> (r: &'static str)
        ensures
            r@ == raw_text(t@, capture_mode_label_key(*self)),
    {
        match self {
            XInputCaptureMode::MostSustained => t.capture_mode_most_sustained(),
            XInputCaptureMode::LastStable => t.capture_mode_last_stable(),
            XInputCaptureMode::DiagonalPriority => t.capture_mode_diagonal_priority(),
        }
    }
}

impl std::str::FromStr for XInputCaptureMode {
    type Err = std::convert::Infallible;

    /// Reads a mode from its name, as [`XInputCaptureMode::parse`] does;
    /// reading never fails.
    fn from_str(s: &str) -> (r: Result<XInputCaptureMode, std::convert::Infallible>)
        ensures
            r == Ok::<XInputCaptureMode, std::convert::Infallible>(capture_mode_from_name(s@)),
    {
        Ok(XInputCaptureMode::parse(s))
    }
}

/// Reading back the name of a mode gives the same mode.
pub proof fn lemma_capture_mode_name_round_trip(m: XInputCaptureMode)
    ensures
        capture_mode_from_name(capture_mode_name(m)) == m,
{
    reveal_strlit("MostSustained");
    reveal_strlit("LastStable");
    reveal_strlit("DiagonalPriority");
    assert("MostSustained"@ != "LastStable"@) by {
        assert("MostSustained"@.len() != "LastStable"@.len());
    }
    assert("DiagonalPriority"@ != "LastStable"@) by {
        assert("DiagonalPriority"@.len() != "LastStable"@.len());
    }
    assert("DiagonalPriority"@ != "MostSustained"@) by {
        assert("DiagonalPriority"@.len() != "MostSustained"@.len());
    }
}

/// HID device baseline configuration for button state detection.
#[derive(Debug, Clone)]
pub struct HidDeviceBaseline {
    /// Device identifier (vendor_id, product_id, serial or handle)
    pub device_id: String,
    /// Baseline HID data (idle state with no buttons pressed)
    pub baseline_data: Vec<u8>,
}

/// Preset configuration storing a named snapshot of mappings.
#[derive(Debug)]
pub struct Preset {
    /// Preset display name
    pub name: String,
    /// Key mappings included in this preset
    pub mappings: Vec<KeyMapping>,
}

/// Key mapping configuration for trigger-target pairs.
#[derive(Debug)]
pub struct KeyMapping {
    /// Trigger key name (single key or combo)
    pub trigger_key: String,
    /// Input sequence for combo triggers (e.g., "↓,→,A").
    /// If set, this takes precedence over trigger_key for matching
    pub trigger_sequence: Option<String>,
    /// Time window for sequence completion in milliseconds
    pub sequence_window_ms: u64,
    /// Target keys to send (supports multiple keys for simultaneous press)
    pub target_keys: KeyList,
    /// Target mode: 0=Single, 1=Multi (simultaneous), 2=Sequence (sequential)
    pub target_mode: u8,
    /// Optional override for repeat interval
    pub interval: Option<u64>,
    /// Optional override for press duration
    pub event_duration: Option<u64>,
    /// Enable turbo mode (auto-repeat)
    pub turbo_enabled: bool,
    /// Mouse move speed in pixels per move (only for mouse movement)
    pub move_speed: i32,
    /// User note/remark for this mapping
    pub note: String,
    /// 0-based positions within `target_keys` that stay pressed after
    /// the body plays.
    pub hold_indices: Option<IndexList>,
    /// Extra key names pressed and held after the body completes.
    pub append_keys: Option<KeyList>,
}

/// What a key mapping holds, its texts taken as character sequences.
pub struct MappingView {
    pub trigger_key: Seq<char>,
    pub trigger_sequence: Option<Seq<char>>,
    pub sequence_window_ms: u64,
    pub target_keys: Seq<Seq<char>>,
    pub target_mode: u8,
    pub interval: Option<u64>,
    pub event_duration: Option<u64>,
    pub turbo_enabled: bool,
    pub move_speed: i32,
    pub note: Seq<char>,
    pub hold_indices: Option<Seq<u8>>,
    pub append_keys: Option<Seq<Seq<char>>>,
}

/// The characters of an optional text.
pub open spec fn opt_text(o: Option<String>) -> Option<Seq<char>> {
    match o {
        Some(s) => Some(s@),
        None => None,
    }
}

impl View for KeyMapping {
    type V = MappingView;

    open spec fn view(&self) -> MappingView {
        MappingView {
            trigger_key: self.trigger_key@,
            trigger_sequence: opt_text(self.trigger_sequence),
            sequence_window_ms: self.sequence_window_ms,
            target_keys: texts(self.target_keys@),
            target_mode: self.target_mode,
            interval: self.interval,
            event_duration: self.event_duration,
            turbo_enabled: self.turbo_enabled,
            move_speed: self.move_speed,
            note: self.note@,
            hold_indices: match self.hold_indices {
                Some(h) => Some(h@),
                None => None,
            },
            append_keys: match self.append_keys {
                Some(a) => Some(texts(a@)),
                None => None,
            },
        }
    }
}

/// A named snapshot of mappings, by value.
pub struct PresetView {
    pub name: Seq<char>,
    pub mappings: Seq<MappingView>,
}

/// The views of a sequence of mappings.
pub open spec fn mapping_views(s: Seq<KeyMapping>) -> Seq<MappingView> {
    s.map_values(|m: KeyMapping| m@)
}

impl View for Preset {
    type V = PresetView;

    open spec fn view(&self) -> PresetView {
        PresetView { name: self.name@, mappings: mapping_views(self.mappings@) }
    }
}

/// The views of a sequence of presets.
pub open spec fn preset_views(s: Seq<Preset>) -> Seq<PresetView> {
    s.map_values(|p: Preset| p@)
}

impl Clone for KeyMapping {
    /// A mapping holding the same values.
    fn clone(&self) -> (r: KeyMapping)
        ensures
            r@ == self@,
    {
        KeyMapping {
            trigger_key: self.trigger_key.clone(),
            trigger_sequence: match &self.trigger_sequence {
                Some(t) => Some(t.clone()),
                None => None,
            },
            sequence_window_ms: self.sequence_window_ms,
            target_keys: self.target_keys.clone(),
            target_mode: self.target_mode,
            interval: self.interval,
            event_duration: self.event_duration,
            turbo_enabled: self.turbo_enabled,
            move_speed: self.move_speed,
            note: self.note.clone(),
            hold_indices: match &self.hold_indices {
                Some(h) => Some(h.clone()),
                None => None,
            },
            append_keys: match &self.append_keys {
                Some(a) => Some(a.clone()),
                None => None,
            },
        }
    }
}

/// Copies of the mappings `v`, in order.
pub fn clone_mappings(v: &Vec<KeyMapping>) -> (r: Vec<KeyMapping>)
    ensures
        mapping_views(r@) == mapping_views(v@),
{
    let mut out: Vec<KeyMapping> = Vec::new();
    let mut i: usize = 0;
    while i < v.len()
        invariant
            i <= v@.len(),
            out@.len() == i,
            forall|j: int| 0 <= j < i ==> #[trigger] out@[j]@ == v@[j]@,
        decreases v.len() - i,
    {
        out.push(v[i].clone());
        i = i + 1;
    }
    assert(mapping_views(out@) =~= mapping_views(v@));
    out
}

impl Clone for Preset {
    /// A preset with the same name and mappings.
    fn clone(&self) -> (r: Preset)
        ensures
            r@ == self@,
    {
        Preset { name: self.name.clone(), mappings: clone_mappings(&self.mappings) }
    }
}

/// Default move speed of a mapping read without one.
pub fn default_move_speed() -> (r: i32)
    ensures
        r == 5,
{
    5
}

/// Mappings read without the field have turbo enabled.
pub fn default_turbo_enabled() -> (r: bool)
    ensures
        r,
{
    true
}

/// Mappings read without the field have no target keys.
pub fn default_target_keys() -> (r: KeyList)
    ensures
        r@ == Seq::<String>::empty(),
{
    KeyList::new()
}

/// Default time window for sequence completion, in milliseconds.
pub fn default_sequence_window() -> (r: u64)
    ensures
        r == 500,
{
    500
}

/// The target keys after adding `key`: appended when the mode is the
/// sequence mode (2), which allows repeats, or when no equal key is
/// present; otherwise unchanged.
pub open spec fn keys_with(keys: Seq<String>, mode: u8, key: String) -> Seq<String> {
    if mode == 2 || !texts(keys).contains(key@) {
        keys.push(key)
    } else {
        keys
    }
}

/// Two mappings agree on everything but their target keys.
pub open spec fn same_except_targets(a: KeyMapping, b: KeyMapping) -> bool {
    &&& a.trigger_key == b.trigger_key
    &&& a.trigger_sequence == b.trigger_sequence
    &&& a.sequence_window_ms == b.sequence_window_ms
    &&& a.target_mode == b.target_mode
    &&& a.interval == b.interval
    &&& a.event_duration == b.event_duration
    &&& a.turbo_enabled == b.turbo_enabled
    &&& a.move_speed == b.move_speed
    &&& a.note == b.note
    &&& a.hold_indices == b.hold_indices
    &&& a.append_keys == b.append_keys
}

impl KeyMapping {
    /// Checks if this mapping uses sequence trigger
    pub fn is_sequence_trigger(&self) -> (r: bool)
        ensures
            r == self.trigger_sequence.is_some(),
    {
        self.trigger_sequence.is_some()
    }

    /// Gets the sequence string if available
    pub fn sequence_string(&self) -> (r: Option<&str>)
        ensures
            r.is_some() == self.trigger_sequence.is_some(),
            r.is_some() ==> r.unwrap()@ == self.trigger_sequence.unwrap()@,
    {
        match &self.trigger_sequence {
            Some(s) => Some(s.as_str()),
            None => None,
        }
    }

    /// Gets the target keys slice
    pub fn get_target_keys(&self) -> (r: &[String])
        ensures
            r@ == self.target_keys@,
    {
        self.target_keys.as_slice()
    }

    /// Adds a target key (sequence mode allows duplicates)
    pub fn add_target_key(&mut self, key: String)
        requires
            old(self).target_keys@.len() < 0x100_0000_0000_0000,
        ensures
            final(self).target_keys@ == keys_with(old(self).target_keys@, old(self).target_mode, key),
            same_except_targets(*final(self), *old(self)),
    {
        if self.target_mode == 2 || !contains_key(self.target_keys.as_slice(), &key) {
            self.target_keys.push(key);
        }
    }

    /// Removes a target key by index; an index past the end changes nothing.
    pub fn remove_target_key_at(&mut self, index: usize)
        ensures
            final(self).target_keys@ == if index < old(self).target_keys@.len() {
                old(self).target_keys@.remove(index as int)
            } else {
                old(self).target_keys@
            },
            same_except_targets(*final(self), *old(self)),
    {
        if index < self.target_keys.len() {
            self.target_keys.remove(index);
        }
    }

    /// Clears all target keys
    pub fn clear_target_keys(&mut self)
        ensures
            final(self).target_keys@ == Seq::<String>::empty(),
            same_except_targets(*final(self), *old(self)),
    {
        self.target_keys.clear();
    }

    /// Gets target keys as display string (comma separated)
    pub fn target_keys_display(&self) -> (r: String)
        ensures
            r@ == crate::text::join(texts(self.target_keys@), ", "@),
    {
        let mut s = String::new();
        crate::text::push_joined(&mut s, self.target_keys.as_slice(), ", ", false);
        assert(s@ =~= crate::text::join(texts(self.target_keys@), ", "@));
        s
    }
}

/// Whether a string equal to `key` is in `keys`.
fn contains_key(keys: &[String], key: &String) -> (r: bool)
    ensures
        r == texts(keys@).contains(key@),
{
    let mut i: usize = 0;
    while i < keys.len()
        invariant
            i <= keys@.len(),
            forall|j: int| 0 <= j < i ==> keys@[j]@ != key@,
        decreases keys.len() - i,
    {
        if str_equal(keys[i].as_str(), key.as_str()) {
            assert(texts(keys@)[i as int] == key@);
            return true;
        }
        i = i + 1;
    }
    proof {
        if texts(keys@).contains(key@) {
            let j = choose|j: int| 0 <= j < texts(keys@).len() && texts(keys@)[j] == key@;
            assert(keys@[j]@ == key@);
        }
    }
    false
}

/// Adding a key outside the sequence mode keeps the target keys free of
/// repeats, and the added key is present afterwards in every mode.
pub proof fn lemma_add_target_key_keeps_keys_distinct(keys: Seq<String>, mode: u8, key: String)
    ensures
        texts(keys_with(keys, mode, key)).contains(key@),
        mode != 2 && texts(keys).no_duplicates() ==> texts(keys_with(keys, mode, key)).no_duplicates(),
{
    let r = keys_with(keys, mode, key);
    if mode == 2 || !texts(keys).contains(key@) {
        assert(texts(r) =~= texts(keys).push(key@));
        assert(texts(r)[texts(r).len() - 1] == key@);
        if mode != 2 && texts(keys).no_duplicates() {
            assert forall|i: int, j: int|
                0 <= i < texts(r).len() && 0 <= j < texts(r).len() && i != j implies texts(r)[i]
                != texts(r)[j] by {
                if i == texts(keys).len() {
                    assert(texts(keys)[j] == texts(r)[j]);
                } else if j == texts(keys).len() {
                    assert(texts(keys)[i] == texts(r)[i]);
                }
            }
        }
    }
}

/// Entries of the device API preference table: device key and preference.
pub type ApiPreferenceEntries = Seq<(Seq<char>, DeviceApiPreference)>;

/// No device key occurs twice.
pub open spec fn keys_distinct(s: ApiPreferenceEntries) -> bool {
    forall|i: int, j: int| 0 <= i < j < s.len() ==> s[i].0 != s[j].0
}

/// The preference stored for `key`, if any.
pub open spec fn preference_of(s: ApiPreferenceEntries, key: Seq<char>) -> Option<DeviceApiPreference>
    decreases s.len(),
{
    if s.len() == 0 {
        None
    } else if s.last().0 == key {
        Some(s.last().1)
    } else {
        preference_of(s.drop_last(), key)
    }
}

/// The table after storing `pref` for `key`: an existing entry for the
/// key is replaced in place, otherwise the entry is added at the end.
pub open spec fn entries_with(s: ApiPreferenceEntries, key: Seq<char>, pref: DeviceApiPreference) -> ApiPreferenceEntries {
    if exists|i: int| 0 <= i < s.len() && s[i].0 == key {
        let i = choose|i: int| 0 <= i < s.len() && s[i].0 == key;
        s.update(i, (key, pref))
    } else {
        s.push((key, pref))
    }
}

/// Device API preferences keyed by device (VID:PID), each device at most
/// once, kept in the order the devices were first added.
#[derive(Debug)]
pub struct ApiPreferences {
    entries: Vec<(String, DeviceApiPreference)>,
}

/// The entries of a table as character sequences.
pub open spec fn entry_texts(v: Seq<(String, DeviceApiPreference)>) -> ApiPreferenceEntries {
    v.map_values(|e: (String, DeviceApiPreference)| (e.0@, e.1))
}

impl View for ApiPreferences {
    type V = ApiPreferenceEntries;

    closed spec fn view(&self) -> ApiPreferenceEntries {
        entry_texts(self.entries@)
    }
}

impl ApiPreferences {
    #[verifier::type_invariant]
    spec fn distinct_devices(self) -> bool {
        keys_distinct(entry_texts(self.entries@))
    }

    /// An empty table.
    pub fn new() -> (r: ApiPreferences)
        ensures
            r@ == Seq::<(Seq<char>, DeviceApiPreference)>::empty(),
            keys_distinct(r@),
    {
        let v: Vec<(String, DeviceApiPreference)> = Vec::new();
        assert(entry_texts(v@) =~= Seq::<(Seq<char>, DeviceApiPreference)>::empty());
        ApiPreferences { entries: v }
    }

    /// The number of devices with a stored preference.
    pub fn len(&self) -> (n: usize)
        ensures
            n == self@.len(),
    {
        self.entries.len()
    }

    /// Whether no preference is stored.
    pub fn is_empty(&self) -> (r: bool)
        ensures
            r == (self@.len() == 0),
    {
        self.entries.len() == 0
    }

    /// The entries in order.
    pub fn entries(&self) -> (r: &[(String, DeviceApiPreference)])
        ensures
            entry_texts(r@) == self@,
            keys_distinct(self@),
    {
        proof {
            use_type_invariant(self);
        }
        self.entries.as_slice()
    }

    /// The preference stored for `key`.
    pub fn get(&self, key: &str) -> (r: Option<DeviceApiPreference>)
        ensures
            r == preference_of(self@, key@),
    {
        let mut i = self.entries.len();
        assert(entry_texts(self.entries@).take(i as int) =~= entry_texts(self.entries@));
        while i > 0
            invariant
                i <= self.entries@.len(),
                preference_of(entry_texts(self.entries@), key@) == preference_of(
                    entry_texts(self.entries@).take(i as int),
                    key@,
                ),
            decreases i,
        {
            let ghost s = entry_texts(self.entries@).take(i as int);
            assert(s.drop_last() =~= entry_texts(self.entries@).take(i - 1));
            if str_equal(self.entries[i - 1].0.as_str(), key) {
                return Some(self.entries[i - 1].1);
            }
            i = i - 1;
        }
        None
    }

    /// Stores `pref` for `key`, replacing an earlier preference of the
    /// same device.
    pub fn insert(&mut self, key: String, pref: DeviceApiPreference)
        ensures
            final(self)@ == entries_with(old(self)@, key@, pref),
            keys_distinct(final(self)@),
    {
        proof {
            use_type_invariant(&*self);
        }
        let ghost s = old(self)@;
        let mut entries: Vec<(String, DeviceApiPreference)> = Vec::new();
        std::mem::swap(&mut entries, &mut self.entries);
        let mut i: usize = 0;
        let mut found = false;
        while i < entries.len()
            invariant_except_break
                i <= entries@.len(),
                s == entry_texts(entries@),
                keys_distinct(s),
                !found,
                forall|j: int| 0 <= j < i ==> s[j].0 != key@,
            ensures
                i <= entries@.len(),
                s == entry_texts(entries@),
                keys_distinct(s),
                found ==> i < entries@.len() && s[i as int].0 == key@,
                !found ==> forall|j: int| 0 <= j < s.len() ==> s[j].0 != key@,
            decreases entries.len() - i,
        {
            if str_equal(entries[i].0.as_str(), key.as_str()) {
                found = true;
                break;
            }
            i = i + 1;
        }
        let ghost k = key@;
        if found {
            proof {
                assert forall|j: int| 0 <= j < s.len() && s[j].0 == k implies j == i by {
                    if j != i {
                        if j < i {
                            assert(s[j].0 != s[i as int].0);
                        } else {
                            assert(s[i as int].0 != s[j].0);
                        }
                    }
                }
                let c = choose|j: int| 0 <= j < s.len() && s[j].0 == k;
                assert(c == i);
            }
            entries.set(i, (key, pref));
            assert(entry_texts(entries@) =~= s.update(i as int, (k, pref)));
        } else {
            entries.push((key, pref));
            assert(entry_texts(entries@) =~= s.push((k, pref)));
        }
        proof {
            lemma_preference_read_back(s, k, pref);
        }
        self.entries = entries;
    }
}

impl Clone for ApiPreferences {
    /// A table with the same entries.
    fn clone(&self) -> (r: ApiPreferences)
        ensures
            r@ == self@,
    {
        proof {
            use_type_invariant(self);
        }
        let mut entries: Vec<(String, DeviceApiPreference)> = Vec::new();
        let mut i: usize = 0;
        while i < self.entries.len()
            invariant
                i <= self.entries@.len(),
                entries@.len() == i,
                forall|j: int|
                    0 <= j < i ==> #[trigger] entries@[j].0@ == self.entries@[j].0@
                        && entries@[j].1 == self.entries@[j].1,
            decreases self.entries.len() - i,
        {
            let key = self.entries[i].0.clone();
            entries.push((key, self.entries[i].1));
            i = i + 1;
        }
        assert(entry_texts(entries@) =~= entry_texts(self.entries@));
        ApiPreferences { entries }
    }
}

/// After storing a preference for a device, reading it back gives that
/// preference.
pub proof fn lemma_preference_read_back(s: ApiPreferenceEntries, key: Seq<char>, pref: DeviceApiPreference)
    requires
        keys_distinct(s),
    ensures
        preference_of(entries_with(s, key, pref), key) == Some(pref),
        keys_distinct(entries_with(s, key, pref)),
{
    let r = entries_with(s, key, pref);
    if exists|i: int| 0 <= i < s.len() && s[i].0 == key {
        let i = choose|i: int| 0 <= i < s.len() && s[i].0 == key;
        lemma_preference_unique_entry(r, key, i);
    } else {
        assert(r.last() == (key, pref));
    }
}

proof fn lemma_preference_unique_entry(s: ApiPreferenceEntries, key: Seq<char>, i: int)
    requires
        keys_distinct(s),
        0 <= i < s.len(),
        s[i].0 == key,
    ensures
        preference_of(s, key) == Some(s[i].1),
    decreases s.len(),
{
    if i != s.len() - 1 {
        assert(s.last().0 != key);
        let t = s.drop_last();
        assert(keys_distinct(t));
        lemma_preference_unique_entry(t, key, i);
    }
}

/// Main application configuration structure.
#[derive(Debug, Clone)]
pub struct AppConfig {
    /// Display tray icon
    pub show_tray_icon: bool,
    /// Show notification messages
    pub show_notifications: bool,
    /// Keep window always on top
    pub always_on_top: bool,
    /// Use dark theme mode
    pub dark_mode: bool,
    /// Application language
    pub language: Language,
    /// Toggle hotkey name
    pub switch_key: String,
    /// Hotkey used to finalize a sequence capture in the settings dialog.
    pub sequence_finalize_key: String,
    /// Analog-stick deadzone applied to every XInput device.
    pub xinput_stick_deadzone: i16,
    /// Trigger threshold applied to every XInput device.
    pub xinput_trigger_threshold: u8,
    /// Minimum single-event delta in pixels for a mouse event to count.
    pub mouse_move_per_event_min_px: u32,
    /// Accumulated motion in pixels required to fire a directional trigger.
    pub mouse_move_min_trigger_px: u32,
    /// Reverse-direction distance in pixels before the same direction can
    /// fire again.
    pub mouse_move_rearm_px: u32,
    /// Key mapping configurations
    pub mappings: Vec<KeyMapping>,
    /// Input timeout in milliseconds
    pub input_timeout: u64,
    /// Default key repeat interval in milliseconds
    pub interval: u64,
    /// Default key press duration in milliseconds
    pub event_duration: u64,
    /// Worker thread count (0 for auto-detection)
    pub worker_count: usize,
    /// Process whitelist (empty means all processes)
    pub process_whitelist: Vec<String>,
    /// HID device baselines for button detection
    pub hid_baselines: Vec<HidDeviceBaseline>,
    /// Raw Input capture mode strategy
    pub rawinput_capture_mode: String,
    /// XInput capture mode strategy
    pub xinput_capture_mode: String,
    /// Device API preferences (VID:PID -> API preference)
    pub device_api_preferences: ApiPreferences,
    /// Saved presets (named mapping snapshots)
    pub presets: Vec<Preset>,
    /// Currently active preset name (empty = none)
    pub current_preset: String,
}

/// Default input timeout in milliseconds.
pub fn default_input_timeout() -> (r: u64)
    ensures
        r == 5,
{
    5
}

/// Default repeat interval in milliseconds.
pub fn default_interval() -> (r: u64)
    ensures
        r == 5,
{
    5
}

/// Default press duration in milliseconds.
pub fn default_event_duration() -> (r: u64)
    ensures
        r == 5,
{
    5
}

/// Default worker count: 0 means auto-detect based on CPU cores.
pub fn default_worker_count() -> (r: usize)
    ensures
        r == 0,
{
    0
}

/// Default Raw Input capture mode.
pub fn default_capture_mode() -> (r: String)
    ensures
        r@ == "MostSustained"@,
{
    String::from_str("MostSustained")
}

/// Default XInput capture mode.
pub fn default_xinput_capture_mode() -> (r: String)
    ensures
        r@ == "MostSustained"@,
{
    String::from_str("MostSustained")
}

/// Default key that finishes a sequence capture.
pub fn default_sequence_finalize_key() -> (r: String)
    ensures
        r@ == "RETURN"@,
{
    String::from_str("RETURN")
}

/// Default analog-stick deadzone.
pub fn default_xinput_stick_deadzone() -> (r: i16)
    ensures
        r == 7849,
{
    7849
}

/// Default trigger threshold.
pub fn default_xinput_trigger_threshold() -> (r: u8)
    ensures
        r == 30,
{
    30
}

/// Default noise floor of mouse movement, in pixels.
pub fn default_mouse_move_per_event_min_px() -> (r: u32)
    ensures
        r == 2,
{
    2
}

/// Default accumulated movement that fires a direction, in pixels.
pub fn default_mouse_move_min_trigger_px() -> (r: u32)
    ensures
        r == 20,
{
    20
}

/// Default reverse movement before a direction fires again, in pixels.
pub fn default_mouse_move_rearm_px() -> (r: u32)
    ensures
        r == 10,
{
    10
}

/// The single mapping of the default configuration: `Q` repeats `Q`.
pub open spec fn is_default_mapping(m: KeyMapping) -> bool {
    &&& m.trigger_key@ == "Q"@
    &&& m.trigger_sequence is None
    &&& m.sequence_window_ms == 500
    &&& texts(m.target_keys@) == seq!["Q"@]
    &&& m.interval is None
    &&& m.event_duration is None
    &&& m.turbo_enabled
    &&& m.move_speed == 10
    &&& m.note@ == Seq::<char>::empty()
    &&& m.target_mode == 0
    &&& m.hold_indices is None
    &&& m.append_keys is None
}

/// The configuration written when no usable configuration exists.
pub open spec fn is_default_config(c: AppConfig) -> bool {
    &&& c.show_tray_icon
    &&& c.show_notifications
    &&& !c.always_on_top
    &&& !c.dark_mode
    &&& c.language == Language::English
    &&& c.switch_key@ == "DELETE"@
    &&& c.sequence_finalize_key@ == "RETURN"@
    &&& c.xinput_stick_deadzone == 7849
    &&& c.xinput_trigger_threshold == 30
    &&& c.mouse_move_per_event_min_px == 2
    &&& c.mouse_move_min_trigger_px == 20
    &&& c.mouse_move_rearm_px == 10
    &&& c.mappings@.len() == 1
    &&& is_default_mapping(c.mappings@[0])
    &&& c.input_timeout == 5
    &&& c.interval == 5
    &&& c.event_duration == 5
    &&& c.worker_count == 0
    &&& c.process_whitelist@.len() == 0
    &&& c.hid_baselines@.len() == 0
    &&& c.rawinput_capture_mode@ == "MostSustained"@
    &&& c.xinput_capture_mode@ == "MostSustained"@
    &&& c.device_api_preferences@.len() == 0
    &&& c.presets@.len() == 1
    &&& c.presets@[0].name@ == "无"@
    &&& c.presets@[0].mappings@.len() == 0
    &&& c.current_preset@ == Seq::<char>::empty()
}

impl Default for AppConfig {
    /// Creates a default configuration with sensible defaults.
    fn default() -> (r: AppConfig)
        ensures
            is_default_config(r),
    {
        let mut targets: Vec<String> = Vec::new();
        targets.push(String::from_str("Q"));
        let target_keys = KeyList::from_vec(targets);
        assert(texts(target_keys@) =~= seq!["Q"@]);
        let mapping = KeyMapping {
            trigger_key: String::from_str("Q"),
            trigger_sequence: None,
            sequence_window_ms: default_sequence_window(),
            target_keys,
            interval: None,
            event_duration: None,
            turbo_enabled: true,
            move_speed: 10,
            note: String::new(),
            target_mode: 0,
            hold_indices: None,
            append_keys: None,
        };
        let mut mappings: Vec<KeyMapping> = Vec::new();
        mappings.push(mapping);
        let mut presets: Vec<Preset> = Vec::new();
        presets.push(Preset { name: String::from_str("无"), mappings: Vec::new() });
        AppConfig {
            show_tray_icon: true,
            show_notifications: true,
            always_on_top: false,
            dark_mode: false,
            language: Language::English,
            switch_key: String::from_str("DELETE"),
            sequence_finalize_key: default_sequence_finalize_key(),
            xinput_stick_deadzone: default_xinput_stick_deadzone(),
            xinput_trigger_threshold: default_xinput_trigger_threshold(),
            mouse_move_per_event_min_px: default_mouse_move_per_event_min_px(),
            mouse_move_min_trigger_px: default_mouse_move_min_trigger_px(),
            mouse_move_rearm_px: default_mouse_move_rearm_px(),
            mappings,
            input_timeout: default_input_timeout(),
            interval: default_interval(),
            event_duration: default_event_duration(),
            worker_count: default_worker_count(),
            process_whitelist: Vec::new(),
            hid_baselines: Vec::new(),
            rawinput_capture_mode: default_capture_mode(),
            xinput_capture_mode: default_xinput_capture_mode(),
            device_api_preferences: ApiPreferences::new(),
            presets,
            current_preset: String::new(),
        }
    }
}

/// `v` raised to `floor` when it is below it.
pub open spec fn at_least(v: u64, floor: u64) -> u64 {
    if v < floor {
        floor
    } else {
        v
    }
}

/// Two configurations agree on every field that the load rules leave
/// alone.
pub open spec fn same_except_load_rules(a: AppConfig, b: AppConfig) -> bool {
    &&& a.show_tray_icon == b.show_tray_icon
    &&& a.show_notifications == b.show_notifications
    &&& a.always_on_top == b.always_on_top
    &&& a.dark_mode == b.dark_mode
    &&& a.language == b.language
    &&& a.switch_key == b.switch_key
    &&& a.sequence_finalize_key == b.sequence_finalize_key
    &&& a.xinput_stick_deadzone == b.xinput_stick_deadzone
    &&& a.xinput_trigger_threshold == b.xinput_trigger_threshold
    &&& a.mouse_move_per_event_min_px == b.mouse_move_per_event_min_px
    &&& a.mouse_move_min_trigger_px == b.mouse_move_min_trigger_px
    &&& a.mouse_move_rearm_px == b.mouse_move_rearm_px
    &&& a.mappings == b.mappings
    &&& a.worker_count == b.worker_count
    &&& a.hid_baselines == b.hid_baselines
    &&& a.rawinput_capture_mode == b.rawinput_capture_mode
    &&& a.xinput_capture_mode == b.xinput_capture_mode
    &&& a.device_api_preferences == b.device_api_preferences
    &&& a.presets == b.presets
    &&& a.current_preset == b.current_preset
}

/// `after` is `before` with the load rules applied: timing values are
/// raised to their minimums (input timeout 2, interval 5, press duration
/// 2) and the process whitelist is sorted with repeats removed.
pub open spec fn load_rules_applied(before: AppConfig, after: AppConfig) -> bool {
    &&& after.input_timeout == at_least(before.input_timeout, 2)
    &&& after.interval == at_least(before.interval, 5)
    &&& after.event_duration == at_least(before.event_duration, 2)
    &&& strictly_sorted(texts(after.process_whitelist@))
    &&& texts(after.process_whitelist@).to_set() == texts(before.process_whitelist@).to_set()
    &&& same_except_load_rules(before, after)
}

impl AppConfig {
    /// Applies the rules that hold of every loaded configuration: the
    /// minimum timing values and a sorted whitelist without repeats.
    pub fn apply_load_rules(self) -> (r: AppConfig)
        ensures
            load_rules_applied(self, r),
    {
        let mut config = self;
        if config.input_timeout < 2 {
            config.input_timeout = 2;
        }
        if config.interval < 5 {
            config.interval = 5;
        }
        if config.event_duration < 2 {
            config.event_duration = 2;
        }
        let mut whitelist: Vec<String> = Vec::new();
        std::mem::swap(&mut whitelist, &mut config.process_whitelist);
        config.process_whitelist = sorted_unique(whitelist);
        config
    }

    /// The configuration that a load settles on: a parsed configuration
    /// with the load rules applied, or the default configuration when
    /// the file was missing or did not parse. The flag tells whether the
    /// configuration must be written back to the file.
    pub fn settle_loaded(parsed: Option<AppConfig>) -> (r: (AppConfig, bool))
        ensures
            match parsed {
                Some(c) => load_rules_applied(c, r.0) && !r.1,
                None => is_default_config(r.0) && r.1,
            },
    {
        match parsed {
            Some(c) => (c.apply_load_rules(), false),
            None => (AppConfig::default(), true),
        }
    }
}

/// Applying the load rules to a configuration that already satisfies
/// them changes nothing: loading twice gives what loading once gives.
pub proof fn lemma_load_rules_idempotent(a: AppConfig, b: AppConfig, c: AppConfig)
    requires
        load_rules_applied(a, b),
        load_rules_applied(b, c),
    ensures
        c.input_timeout == b.input_timeout,
        c.interval == b.interval,
        c.event_duration == b.event_duration,
        texts(c.process_whitelist@) == texts(b.process_whitelist@),
        same_except_load_rules(b, c),
{
    crate::text::lemma_strictly_sorted_unique(
        texts(c.process_whitelist@),
        texts(b.process_whitelist@),
    );
}

/// After the load rules the timing values are at least their minimums
/// and no process occurs twice in the whitelist.
pub proof fn lemma_load_rules_bounds(a: AppConfig, b: AppConfig)
    requires
        load_rules_applied(a, b),
    ensures
        b.input_timeout >= 2,
        b.interval >= 5,
        b.event_duration >= 2,
        texts(b.process_whitelist@).no_duplicates(),
{
    let w = texts(b.process_whitelist@);
    assert forall|i: int, j: int| 0 <= i < w.len() && 0 <= j < w.len() && i != j implies w[i]
        != w[j] by {
        if i < j {
            assert(crate::text::text_lt(w[i], w[j]));
            crate::text::lemma_text_lt_irreflexive(w[i]);
        } else {
            assert(crate::text::text_lt(w[j], w[i]));
            crate::text::lemma_text_lt_irreflexive(w[j]);
        }
    }
}

} // verus!
