//! Detection of the toggle hotkey from polled key states: each key maps to
//! one of sixteen state bits, and a toggle fires on the press edge only.

use vstd::prelude::*;
use vstd::string::StrSliceExecFns;

use crate::text::{
    find_char, first_index_of, split_at_char, split_on, str_equal, texts, to_uppercase, trim,
    trimmed, uppercase,
};

verus! {

/// The state bit of a virtual-key code: bit `vk % 16`.
pub open spec fn key_bit(vk: u32) -> u16 {
    (1u16 << ((vk % 16) as u16)) as u16
}

/// Converts a virtual-key code to its state bit. Codes sixteen apart share
/// a bit.
pub fn vk_to_bit(vk: u32) -> (r: u16)
    ensures
        r == key_bit(vk),
{
    1u16 << ((vk % 16) as u16)
}

/// The outcome of polling one key: the new state bits and whether the
/// toggle fires.
pub open spec fn key_poll(state: u16, vk: u32, is_pressed: bool) -> (u16, bool) {
    let bit = key_bit(vk);
    let was_pressed = state & bit != 0;
    if is_pressed && !was_pressed {
        ((state | bit) as u16, true)
    } else if !is_pressed {
        ((state & !bit) as u16, false)
    } else {
        (state, false)
    }
}

/// Polls one key: a press that was not seen before sets the key's bit and
/// fires; a release clears the bit; a held key changes nothing.
pub fn poll_key(state: u16, vk: u32, is_pressed: bool) -> (r: (u16, bool))
    ensures
        r == key_poll(state, vk, is_pressed),
{
    let bit = vk_to_bit(vk);
    let was_pressed = (state & bit) != 0;
    if is_pressed && !was_pressed {
        (state | bit, true)
    } else if !is_pressed {
        (state & !bit, false)
    } else {
        (state, false)
    }
}

/// Modifier flag of the control keys.
pub const MOD_CTRL: u8 = 0b001;

/// Modifier flag of the shift keys.
pub const MOD_SHIFT: u8 = 0b010;

/// Modifier flag of the alt keys.
pub const MOD_ALT: u8 = 0b100;

/// Whether every modifier that `modifiers` asks for is held.
pub fn modifiers_held(modifiers: u8, ctrl_down: bool, shift_down: bool, alt_down: bool) -> (r: bool)
    ensures
        r == ((modifiers & MOD_CTRL == 0 || ctrl_down) && (modifiers & MOD_SHIFT == 0 || shift_down)
            && (modifiers & MOD_ALT == 0 || alt_down)),
{
    let ctrl_ok = (modifiers & MOD_CTRL) == 0 || ctrl_down;
    let shift_ok = (modifiers & MOD_SHIFT) == 0 || shift_down;
    let alt_ok = (modifiers & MOD_ALT) == 0 || alt_down;
    ctrl_ok && shift_ok && alt_ok
}

/// Every key of a combination is down.
pub open spec fn all_pressed(pressed: Seq<bool>) -> bool {
    forall|i: int| 0 <= i < pressed.len() ==> #[trigger] pressed[i]
}

/// Polling the keys of a combination from position `i` on, in order: each
/// key is polled as a single key, and the first press edge seen while
/// every key of the combination is down fires and ends the poll.
pub open spec fn combo_poll_from(state: u16, keys: Seq<u32>, pressed: Seq<bool>, i: int) -> (
    u16,
    bool,
)
    decreases keys.len() - i,
{
    if i < 0 || i >= keys.len() {
        (state, false)
    } else {
        let (s, edge) = key_poll(state, keys[i], pressed[i]);
        if edge && all_pressed(pressed) {
            (s, true)
        } else {
            combo_poll_from(s, keys, pressed, i + 1)
        }
    }
}

/// A combination fires only while every one of its keys is down.
pub proof fn lemma_combo_fires_when_all_down(state: u16, keys: Seq<u32>, pressed: Seq<bool>, i: int)
    ensures
        combo_poll_from(state, keys, pressed, i).1 ==> all_pressed(pressed),
    decreases keys.len() - i,
{
    if 0 <= i < keys.len() {
        let (s, edge) = key_poll(state, keys[i], pressed[i]);
        lemma_combo_fires_when_all_down(s, keys, pressed, i + 1);
    }
}

/// Polls a key combination: nothing happens unless every modifier it asks
/// for is held; then its keys are polled in order as
/// [`combo_poll_from`] states. `pressed[i]` tells whether `keys[i]` is down.
pub fn poll_combo(
    state: u16,
    modifiers: u8,
    ctrl_down: bool,
    shift_down: bool,
    alt_down: bool,
    keys: &[u32],
    pressed: &[bool],
) -> (r: (u16, bool))
    requires
        keys@.len() == pressed@.len(),
    ensures
        r == if (modifiers & MOD_CTRL == 0 || ctrl_down) && (modifiers & MOD_SHIFT == 0
            || shift_down) && (modifiers & MOD_ALT == 0 || alt_down) {
            combo_poll_from(state, keys@, pressed@, 0)
        } else {
            (state, false)
        },
        r.1 ==> all_pressed(pressed@),
{
    proof {
        lemma_combo_fires_when_all_down(state, keys@, pressed@, 0);
    }
    if !modifiers_held(modifiers, ctrl_down, shift_down, alt_down) {
        return (state, false);
    }
    let mut all_down = true;
    let mut k: usize = 0;
    while k < pressed.len()
        invariant
            k <= pressed@.len(),
            all_down == (forall|j: int| 0 <= j < k ==> #[trigger] pressed@[j]),
        decreases pressed.len() - k,
    {
        all_down = all_down && pressed[k];
        k = k + 1;
    }
    let mut cur = state;
    let mut i: usize = 0;
    while i < keys.len()
        invariant
            keys@.len() == pressed@.len(),
            i <= keys@.len(),
            all_down == all_pressed(pressed@),
            combo_poll_from(state, keys@, pressed@, 0) == combo_poll_from(cur, keys@, pressed@, i as int),
            (modifiers & MOD_CTRL == 0 || ctrl_down) && (modifiers & MOD_SHIFT == 0 || shift_down)
                && (modifiers & MOD_ALT == 0 || alt_down),
        decreases keys.len() - i,
    {
        let (s, edge) = poll_key(cur, keys[i], pressed[i]);
        if edge && all_down {
            assert(combo_poll_from(cur, keys@, pressed@, i as int) == (s, true));
            return (s, true);
        }
        cur = s;
        i = i + 1;
    }
    (cur, false)
}

/// A key held down fires once: polling it again while it stays pressed
/// does not fire, and after a release the next press fires again.
pub proof fn lemma_hold_fires_once(state: u16, vk: u32)
    ensures
        !key_poll(key_poll(state, vk, true).0, vk, true).1,
        key_poll(key_poll(state, vk, false).0, vk, true).1,
{
    let bit = key_bit(vk);
    let sh: u16 = (vk % 16) as u16;
    assert(sh < 16);
    assert(bit == (1u16 << sh) as u16);
    assert(bit != 0) by (bit_vector)
        requires
            bit == (1u16 << sh) as u16,
            sh < 16,
    ;
    let s1 = key_poll(state, vk, true).0;
    assert(s1 & bit != 0) by {
        if state & bit == 0 {
            assert((state | bit) & bit != 0) by (bit_vector)
                requires
                    bit != 0,
            ;
        }
    }
    let s2 = key_poll(state, vk, false).0;
    assert(s2 & bit == 0) by {
        assert((state & !bit) & bit == 0) by (bit_vector);
    }
}

/// The toggle hotkey as configured, before its key names are turned into
/// virtual-key codes.
#[derive(Debug)]
pub enum SwitchKeyNames {
    /// No hotkey is configured.
    Unset,
    /// A single key.
    Single(String),
    /// Keys pressed together with modifiers.
    Combo {
        /// Modifier flags: `MOD_CTRL`, `MOD_SHIFT`, `MOD_ALT`.
        modifiers: u8,
        /// Names of the other keys, trimmed.
        keys: Vec<String>,
    },
}

/// The modifier flag that a key name stands for (compared in upper case),
/// or 0 when it names no modifier.
pub open spec fn modifier_flag(name: Seq<char>) -> u8 {
    if name == "LCTRL"@ || name == "RCTRL"@ || name == "CTRL"@ {
        MOD_CTRL
    } else if name == "LSHIFT"@ || name == "RSHIFT"@ || name == "SHIFT"@ {
        MOD_SHIFT
    } else if name == "LALT"@ || name == "RALT"@ || name == "ALT"@ {
        MOD_ALT
    } else {
        0
    }
}

/// Each modifier name stands for its own modifier and no other: a name is
/// read as control exactly when it is `LCTRL`, `RCTRL` or `CTRL`, as shift
/// exactly when it is `LSHIFT`, `RSHIFT` or `SHIFT`, as alt exactly when it
/// is `LALT`, `RALT` or `ALT`, and every other name is no modifier.
pub proof fn lemma_modifier_names(name: Seq<char>)
    ensures
        (modifier_flag(name) == MOD_CTRL) == (name == "LCTRL"@ || name == "RCTRL"@ || name
            == "CTRL"@),
        (modifier_flag(name) == MOD_SHIFT) == (name == "LSHIFT"@ || name == "RSHIFT"@ || name
            == "SHIFT"@),
        (modifier_flag(name) == MOD_ALT) == (name == "LALT"@ || name == "RALT"@ || name
            == "ALT"@),
        modifier_flag(name) == 0 || modifier_flag(name) == MOD_CTRL || modifier_flag(name)
            == MOD_SHIFT || modifier_flag(name) == MOD_ALT,
{
    reveal_strlit("LCTRL");
    reveal_strlit("RCTRL");
    reveal_strlit("CTRL");
    reveal_strlit("LSHIFT");
    reveal_strlit("RSHIFT");
    reveal_strlit("SHIFT");
    reveal_strlit("LALT");
    reveal_strlit("RALT");
    reveal_strlit("ALT");
    if name == "LSHIFT"@ || name == "RSHIFT"@ || name == "SHIFT"@ || name == "LALT"@ || name
        == "RALT"@ || name == "ALT"@ {
        assert(!(name == "LCTRL"@ || name == "RCTRL"@ || name == "CTRL"@)) by {
            if name == "LCTRL"@ || name == "RCTRL"@ || name == "CTRL"@ {
                assert(name[0] == "LCTRL"@[0] || name[0] == "RCTRL"@[0] || name[0] == "CTRL"@[0]);
                assert(name[name.len() - 1] == 'L');
            }
        }
    }
    if name == "LALT"@ || name == "RALT"@ || name == "ALT"@ {
        assert(!(name == "LSHIFT"@ || name == "RSHIFT"@ || name == "SHIFT"@)) by {
            if name == "LSHIFT"@ || name == "RSHIFT"@ || name == "SHIFT"@ {
                assert(name[name.len() - 1] == 'T');
                assert(name[name.len() - 2] == 'F');
            }
        }
    }
}

proof fn lemma_flag_present_step(parts: Seq<Seq<char>>, f: u8)
    requires
        parts.len() > 0,
    ensures
        (exists|i: int| 0 <= i < parts.len() && #[trigger] part_flag(parts[i]) == f) == ((exists|
            i: int,
        | 0 <= i < parts.drop_last().len() && #[trigger] part_flag(parts.drop_last()[i]) == f)
            || part_flag(parts.last()) == f),
{
    let t = parts.drop_last();
    if exists|i: int| 0 <= i < parts.len() && #[trigger] part_flag(parts[i]) == f {
        let i = choose|i: int| 0 <= i < parts.len() && #[trigger] part_flag(parts[i]) == f;
        if i < t.len() {
            assert(t[i] == parts[i]);
        }
    }
    if exists|i: int| 0 <= i < t.len() && #[trigger] part_flag(t[i]) == f {
        let i = choose|i: int| 0 <= i < t.len() && #[trigger] part_flag(t[i]) == f;
        assert(parts[i] == t[i]);
    }
    if part_flag(parts.last()) == f {
        assert(part_flag(parts[parts.len() - 1]) == f);
    }
}

/// A combination asks for a modifier exactly when one of its parts names
/// it: the control, shift and alt bits of the modifiers are each set when,
/// and only when, some part reads as that modifier.
pub proof fn lemma_combo_modifier_bits(parts: Seq<Seq<char>>)
    ensures
        (combo_modifiers(parts) & MOD_CTRL != 0) == (exists|i: int|
            0 <= i < parts.len() && #[trigger] part_flag(parts[i]) == MOD_CTRL),
        (combo_modifiers(parts) & MOD_SHIFT != 0) == (exists|i: int|
            0 <= i < parts.len() && #[trigger] part_flag(parts[i]) == MOD_SHIFT),
        (combo_modifiers(parts) & MOD_ALT != 0) == (exists|i: int|
            0 <= i < parts.len() && #[trigger] part_flag(parts[i]) == MOD_ALT),
    decreases parts.len(),
{
    if parts.len() == 0 {
        assert((0u8 & 1u8) == 0 && (0u8 & 2u8) == 0 && (0u8 & 4u8) == 0) by (bit_vector);
    } else {
        let t = parts.drop_last();
        lemma_combo_modifier_bits(t);
        let a = combo_modifiers(t);
        let b = part_flag(parts.last());
        lemma_modifier_names(uppercase(trimmed(parts.last())));
        assert(b == 0 || b == 1 || b == 2 || b == 4);
        assert(((a | b) & 1 != 0) == ((a & 1 != 0) || b == 1)) by (bit_vector)
            requires
                b == 0 || b == 1 || b == 2 || b == 4,
        ;
        assert(((a | b) & 2 != 0) == ((a & 2 != 0) || b == 2)) by (bit_vector)
            requires
                b == 0 || b == 1 || b == 2 || b == 4,
        ;
        assert(((a | b) & 4 != 0) == ((a & 4 != 0) || b == 4)) by (bit_vector)
            requires
                b == 0 || b == 1 || b == 2 || b == 4,
        ;
        lemma_flag_present_step(parts, MOD_CTRL);
        lemma_flag_present_step(parts, MOD_SHIFT);
        lemma_flag_present_step(parts, MOD_ALT);
    }
}

/// The flag of one part of a combination: its trimmed text in upper case.
pub open spec fn part_flag(part: Seq<char>) -> u8 {
    modifier_flag(uppercase(trimmed(part)))
}

/// The modifier flags that the parts of a combination name.
pub open spec fn combo_modifiers(parts: Seq<Seq<char>>) -> u8
    decreases parts.len(),
{
    if parts.len() == 0 {
        0
    } else {
        combo_modifiers(parts.drop_last()) | part_flag(parts.last())
    }
}

/// The trimmed parts of a combination that name no modifier, in order.
pub open spec fn combo_keys(parts: Seq<Seq<char>>) -> Seq<Seq<char>>
    decreases parts.len(),
{
    if parts.len() == 0 {
        Seq::empty()
    } else {
        let r = combo_keys(parts.drop_last());
        if part_flag(parts.last()) == 0 {
            r.push(trimmed(parts.last()))
        } else {
            r
        }
    }
}

/// The flag of one key name, compared in upper case.
fn flag_of(upper: &str) -> (f: u8)
    ensures
        f == modifier_flag(upper@),
{
    if str_equal(upper, "LCTRL") || str_equal(upper, "RCTRL") || str_equal(upper, "CTRL") {
        MOD_CTRL
    } else if str_equal(upper, "LSHIFT") || str_equal(upper, "RSHIFT") || str_equal(
        upper,
        "SHIFT",
    ) {
        MOD_SHIFT
    } else if str_equal(upper, "LALT") || str_equal(upper, "RALT") || str_equal(upper, "ALT") {
        MOD_ALT
    } else {
        0
    }
}

/// Reads the configured toggle hotkey: nothing when it is empty, a single
/// key when it holds no `+`, else the modifiers and key names that the
/// parts between `+` give.
pub fn switch_key_names(switch_key: &str) -> (r: SwitchKeyNames)
    ensures
        (r is Unset) == (switch_key@.len() == 0),
        (r is Single) == (switch_key@.len() > 0 && first_index_of(switch_key@, '+') is None),
        r matches SwitchKeyNames::Single(name) ==> name@ == switch_key@,
        r matches SwitchKeyNames::Combo { modifiers, keys } ==> modifiers == combo_modifiers(
            split_on(switch_key@, '+'),
        ) && texts(keys@) == combo_keys(split_on(switch_key@, '+')),
{
    if switch_key.is_empty() {
        return SwitchKeyNames::Unset;
    }
    if find_char(switch_key, '+').is_none() {
        let n = switch_key.unicode_len();
        let name = switch_key.substring_char(0, n);
        assert(name@ =~= switch_key@);
        return SwitchKeyNames::Single(name.to_string());
    }
    let parts = split_at_char(switch_key, '+');
    let mut modifiers: u8 = 0;
    let mut keys: Vec<String> = Vec::new();
    let mut i: usize = 0;
    let ghost all = texts(parts@);
    assert(all.take(0) =~= Seq::<Seq<char>>::empty());
    while i < parts.len()
        invariant
            i <= parts@.len(),
            all == texts(parts@),
            modifiers == combo_modifiers(all.take(i as int)),
            texts(keys@) == combo_keys(all.take(i as int)),
        decreases parts.len() - i,
    {
        let trimmed_part = trim(parts[i].as_str());
        let upper = to_uppercase(trimmed_part.as_str());
        let flag = flag_of(upper.as_str());
        let ghost t = all.take(i + 1);
        assert(t.drop_last() =~= all.take(i as int));
        assert(t.last() == parts@[i as int]@);
        assert(flag == part_flag(t.last()));
        if flag == 0 {
            let ghost before = texts(keys@);
            keys.push(trimmed_part);
            assert(texts(keys@) =~= before.push(trimmed(t.last())));
        }
        modifiers = modifiers | flag;
        i = i + 1;
    }
    assert(all.take(parts@.len() as int) =~= all);
    SwitchKeyNames::Combo { modifiers, keys }
}

} // verus!
