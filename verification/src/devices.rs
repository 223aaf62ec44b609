//! Identifiers of HID devices as the configuration stores them (`VID:PID`
//! or `VID:PID:Serial`, vendor and product id in upper-case hex), the
//! baselines recorded for activated devices, and the devices that device
//! API preference keys name.

use vstd::prelude::*;
use vstd::string::StrSliceExecFns;

use crate::config::HidDeviceBaseline;
use crate::numbers::{hex4, hex_value, lemma_hex4_round_trip, parse_hex_u16, push_hex4, within};
use crate::text::{
    find_char, first_index_of, first_occurrence, lemma_first_occurrence, lemma_no_occurrence,
    push_char, push_str, str_equal, str_starts_with,
};

verus! {

/// The characters of an optional text.
pub open spec fn opt_str(s: Option<&str>) -> Option<Seq<char>> {
    match s {
        Some(t) => Some(t@),
        None => None,
    }
}

/// The identifier of a device: `VID:PID`, or `VID:PID:Serial` when it has a
/// serial number, each id as four upper-case hex digits.
pub open spec fn device_id_text(vid: u16, pid: u16, serial: Option<Seq<char>>) -> Seq<char> {
    let base = hex4(vid) + seq![':'] + hex4(pid);
    match serial {
        Some(s) => base + seq![':'] + s,
        None => base,
    }
}

/// A hexadecimal number of at most `0xFFFF`, as `u16::from_str_radix(s, 16)`
/// reads it.
pub open spec fn hex_u16(s: Seq<char>) -> Option<u16> {
    match within(hex_value(s), 0, 0xFFFF) {
        Some(v) => Some(v as u16),
        None => None,
    }
}

/// Both ids, when both were read.
pub open spec fn both_ids(vid: Option<u16>, pid: Option<u16>) -> Option<(u16, u16)> {
    match vid {
        Some(v) => match pid {
            Some(p) => Some((v, p)),
            None => None,
        },
        None => None,
    }
}

/// The vendor and product id that a baseline's device identifier names: the
/// hex numbers before its first `:` and between that `:` and the next one
/// (or the end). `None` when it has no `:` or either number cannot be read.
pub open spec fn baseline_device(id: Seq<char>) -> Option<(u16, u16)> {
    match first_index_of(id, ':') {
        None => None,
        Some(c) => {
            let rest = id.skip(c + 1);
            let pid_text = match first_index_of(rest, ':') {
                Some(d) => rest.take(d),
                None => rest,
            };
            both_ids(hex_u16(id.take(c)), hex_u16(pid_text))
        },
    }
}

/// The vendor and product id that a device API preference key names: the
/// hex numbers before and after its first `:`.
pub open spec fn preference_device(key: Seq<char>) -> Option<(u16, u16)> {
    match first_index_of(key, ':') {
        None => None,
        Some(c) => both_ids(hex_u16(key.take(c)), hex_u16(key.skip(c + 1))),
    }
}

/// `a` begins with `prefix`.
pub open spec fn starts_with(a: Seq<char>, prefix: Seq<char>) -> bool {
    prefix.len() <= a.len() && a.take(prefix.len() as int) == prefix
}

/// Some baseline of `s` is recorded for the device `id`.
pub open spec fn has_baseline(s: Seq<HidDeviceBaseline>, id: Seq<char>) -> bool {
    exists|i: int| 0 <= i < s.len() && #[trigger] s[i].device_id@ == id
}

/// No two baselines of `s` are recorded for the same device.
pub open spec fn baseline_ids_distinct(s: Seq<HidDeviceBaseline>) -> bool {
    forall|i: int, j: int|
        0 <= i < s.len() && 0 <= j < s.len() && i != j ==> #[trigger] s[i].device_id@
            != #[trigger] s[j].device_id@
}

/// The baselines of `s` whose device identifier does not begin with
/// `prefix`, in order.
pub open spec fn baselines_without(s: Seq<HidDeviceBaseline>, prefix: Seq<char>) -> Seq<
    HidDeviceBaseline,
>
    decreases s.len(),
{
    if s.len() == 0 {
        s
    } else {
        let r = baselines_without(s.drop_last(), prefix);
        if starts_with(s.last().device_id@, prefix) {
            r
        } else {
            r.push(s.last())
        }
    }
}

/// The devices that the baselines of `s` name.
pub open spec fn activated_device(s: Seq<HidDeviceBaseline>, d: (u16, u16)) -> bool {
    exists|i: int| 0 <= i < s.len() && baseline_device(#[trigger] s[i].device_id@) == Some(d)
}

/// The identifier of a device, as `format!("{:04X}:{:04X}:{}")` writes it
/// (without the last part when there is no serial number).
pub fn device_id(vid: u16, pid: u16, serial: Option<&str>) -> (r: String)
    ensures
        r@ == device_id_text(vid, pid, opt_str(serial)),
{
    let mut out = String::new();
    push_hex4(&mut out, vid);
    push_char(&mut out, ':');
    push_hex4(&mut out, pid);
    match serial {
        Some(s) => {
            push_char(&mut out, ':');
            push_str(&mut out, s);
        },
        None => {},
    }
    assert(out@ =~= device_id_text(vid, pid, opt_str(serial)));
    out
}

/// `u16::from_str_radix(s, 16)`, read as [`hex_u16`] states it.
fn hex_u16_of(s: &str) -> (r: Option<u16>)
    ensures
        r == hex_u16(s@),
{
    match parse_hex_u16(s) {
        Some(v) => Some(v),
        None => None,
    }
}

/// The vendor and product id that a baseline's device identifier names.
pub fn baseline_device_of(id: &str) -> (r: Option<(u16, u16)>)
    ensures
        r == baseline_device(id@),
{
    let n = id.unicode_len();
    match find_char(id, ':') {
        None => None,
        Some(c) => {
            let vid_text = id.substring_char(0, c);
            let rest = id.substring_char(c + 1, n);
            assert(vid_text@ =~= id@.take(c as int));
            assert(rest@ =~= id@.skip(c + 1));
            let m = rest.unicode_len();
            let pid_text = match find_char(rest, ':') {
                Some(d) => {
                    let t = rest.substring_char(0, d);
                    assert(t@ =~= rest@.take(d as int));
                    t
                },
                None => {
                    let t = rest.substring_char(0, m);
                    assert(t@ =~= rest@);
                    t
                },
            };
            match hex_u16_of(vid_text) {
                Some(v) => match hex_u16_of(pid_text) {
                    Some(p) => Some((v, p)),
                    None => None,
                },
                None => None,
            }
        },
    }
}

/// The vendor and product id that a device API preference key names.
pub fn preference_device_of(key: &str) -> (r: Option<(u16, u16)>)
    ensures
        r == preference_device(key@),
{
    let n = key.unicode_len();
    match find_char(key, ':') {
        None => None,
        Some(c) => {
            let vid_text = key.substring_char(0, c);
            let pid_text = key.substring_char(c + 1, n);
            assert(vid_text@ =~= key@.take(c as int));
            assert(pid_text@ =~= key@.skip(c + 1));
            match hex_u16_of(vid_text) {
                Some(v) => match hex_u16_of(pid_text) {
                    Some(p) => Some((v, p)),
                    None => None,
                },
                None => None,
            }
        },
    }
}

/// Records the baseline of a newly activated device, unless a baseline is
/// already recorded for the same identifier. Tells whether it was added.
pub fn record_baseline(
    baselines: &mut Vec<HidDeviceBaseline>,
    device_id: String,
    baseline_data: Vec<u8>,
) -> (added: bool)
    ensures
        added == !has_baseline(old(baselines)@, device_id@),
        added ==> final(baselines)@ == old(baselines)@.push(
            (HidDeviceBaseline { device_id, baseline_data }),
        ),
        !added ==> final(baselines)@ == old(baselines)@,
        baseline_ids_distinct(old(baselines)@) ==> baseline_ids_distinct(final(baselines)@),
{
    let mut i: usize = 0;
    while i < baselines.len()
        invariant
            i <= baselines@.len(),
            baselines@ == old(baselines)@,
            forall|j: int| 0 <= j < i ==> #[trigger] baselines@[j].device_id@ != device_id@,
        decreases baselines.len() - i,
    {
        if str_equal(baselines[i].device_id.as_str(), device_id.as_str()) {
            return false;
        }
        i = i + 1;
    }
    let ghost s = baselines@;
    let ghost id = device_id@;
    baselines.push(HidDeviceBaseline { device_id, baseline_data });
    proof {
        let t = baselines@;
        assert forall|x: int, y: int|
            baseline_ids_distinct(s) && 0 <= x < t.len() && 0 <= y < t.len() && x != y implies #[trigger] t[x].device_id@
            != #[trigger] t[y].device_id@ by {
            if x < s.len() && y < s.len() {
                assert(t[x] == s[x] && t[y] == s[y]);
            } else if x < s.len() {
                assert(t[x] == s[x]);
                assert(s[x].device_id@ != id);
            } else {
                assert(t[y] == s[y]);
                assert(s[y].device_id@ != id);
            }
        }
    }
    true
}

/// Drops the baselines recorded for the device `vid:pid` (those whose
/// identifier begins with `VID:PID`), so that the device is activated anew.
pub fn forget_device_baselines(baselines: &mut Vec<HidDeviceBaseline>, vid: u16, pid: u16)
    ensures
        final(baselines)@ == baselines_without(
            old(baselines)@,
            device_id_text(vid, pid, None),
        ),
{
    let prefix = device_id(vid, pid, None);
    let mut all: Vec<HidDeviceBaseline> = Vec::new();
    std::mem::swap(&mut all, baselines);
    let ghost s = all@;
    let mut kept: Vec<HidDeviceBaseline> = Vec::new();
    let mut rest: Vec<HidDeviceBaseline> = Vec::new();
    let n = all.len();
    // Walk the list from its end so that each entry can be moved out.
    let mut i: usize = n;
    while i > 0
        invariant
            i <= n,
            n == s.len(),
            all@ == s.take(i as int),
            rest@ == s.skip(i as int).reverse(),
        decreases i,
    {
        let b = all.pop().unwrap();
        assert(b == s[i - 1]);
        proof {
            assert(s.skip(i - 1).reverse() =~= s.skip(i as int).reverse().push(s[i - 1]));
            assert(s.take(i - 1) =~= s.take(i as int).drop_last());
        }
        rest.push(b);
        i = i - 1;
    }
    assert(s.skip(0) =~= s);
    // `rest` holds the list in reverse order; move the kept entries back.
    let mut j: usize = 0;
    assert(s.take(0) =~= Seq::<HidDeviceBaseline>::empty());
    while j < n
        invariant
            j <= n,
            n == s.len(),
            rest@ == s.skip(j as int).reverse(),
            kept@ == baselines_without(s.take(j as int), prefix@),
            prefix@ == device_id_text(vid, pid, None),
        decreases n - j,
    {
        let b = rest.pop().unwrap();
        proof {
            assert(b == s[j as int]);
            assert(s.skip(j + 1).reverse() =~= s.skip(j as int).reverse().drop_last());
            assert(s.take(j + 1).drop_last() =~= s.take(j as int));
        }
        if !str_starts_with(b.device_id.as_str(), prefix.as_str()) {
            kept.push(b);
        }
        j = j + 1;
    }
    assert(s.take(n as int) =~= s);
    *baselines = kept;
}

/// The devices that the recorded baselines name, each once.
pub fn activated_devices(baselines: &Vec<HidDeviceBaseline>) -> (r: Vec<(u16, u16)>)
    ensures
        r@.no_duplicates(),
        forall|d: (u16, u16)| r@.contains(d) <==> activated_device(baselines@, d),
{
    let mut out: Vec<(u16, u16)> = Vec::new();
    let mut i: usize = 0;
    while i < baselines.len()
        invariant
            i <= baselines@.len(),
            out@.no_duplicates(),
            forall|d: (u16, u16)|
                out@.contains(d) <==> activated_device(baselines@.take(i as int), d),
        decreases baselines.len() - i,
    {
        let found = baseline_device_of(baselines[i].device_id.as_str());
        let ghost before = out@;
        proof {
            assert forall|d: (u16, u16)|
                activated_device(baselines@.take(i + 1), d) <==> (activated_device(
                    baselines@.take(i as int),
                    d,
                ) || baseline_device(baselines@[i as int].device_id@) == Some(d)) by {
                if activated_device(baselines@.take(i + 1), d) {
                    let k = choose|k: int|
                        0 <= k < i + 1 && baseline_device(
                            #[trigger] baselines@.take(i + 1)[k].device_id@,
                        ) == Some(d);
                    if k < i {
                        assert(baselines@.take(i as int)[k] == baselines@.take(i + 1)[k]);
                    }
                }
                if activated_device(baselines@.take(i as int), d) {
                    let k = choose|k: int|
                        0 <= k < i && baseline_device(
                            #[trigger] baselines@.take(i as int)[k].device_id@,
                        ) == Some(d);
                    assert(baselines@.take(i + 1)[k] == baselines@.take(i as int)[k]);
                }
                if baseline_device(baselines@[i as int].device_id@) == Some(d) {
                    assert(baselines@.take(i + 1)[i as int] == baselines@[i as int]);
                }
            }
        }
        match found {
            Some(d) => {
                let present = contains_pair(&out, d);
                if !present {
                    out.push(d);
                    proof {
                        assert forall|x: int, y: int|
                            0 <= x < out@.len() && 0 <= y < out@.len() && x != y implies out@[x]
                            != out@[y] by {
                            if x < before.len() && y < before.len() {
                                assert(before[x] != before[y]);
                            }
                        }
                        assert forall|e: (u16, u16)| out@.contains(e) <==> before.contains(e) || e == d by {
                            if out@.contains(e) {
                                let x = choose|x: int| 0 <= x < out@.len() && out@[x] == e;
                                if x < before.len() {
                                    assert(before[x] == e);
                                }
                            }
                            if before.contains(e) {
                                let x = choose|x: int| 0 <= x < before.len() && before[x] == e;
                                assert(out@[x] == e);
                            }
                            if e == d {
                                assert(out@[before.len() as int] == e);
                            }
                        }
                    }
                }
                assert forall|e: (u16, u16)|
                    out@.contains(e) <==> activated_device(baselines@.take(i + 1), e) by {
                    assert(before.contains(e) <==> activated_device(baselines@.take(i as int), e));
                    assert(activated_device(baselines@.take(i + 1), e) <==> (activated_device(
                        baselines@.take(i as int),
                        e,
                    ) || baseline_device(baselines@[i as int].device_id@) == Some(e)));
                    if present {
                        assert(out@ == before);
                    } else {
                        assert(out@.contains(e) <==> before.contains(e) || e == d);
                    }
                }
            },
            None => {},
        }
        i = i + 1;
    }
    assert(baselines@.take(baselines@.len() as int) =~= baselines@);
    out
}

/// Whether `v` holds `d`.
fn contains_pair(v: &Vec<(u16, u16)>, d: (u16, u16)) -> (r: bool)
    ensures
        r == v@.contains(d),
{
    let mut k: usize = 0;
    while k < v.len()
        invariant
            k <= v@.len(),
            forall|x: int| 0 <= x < k ==> v@[x] != d,
        decreases v.len() - k,
    {
        if v[k].0 == d.0 && v[k].1 == d.1 {
            assert(v@[k as int] == d);
            return true;
        }
        k = k + 1;
    }
    false
}

/// Four hex digits hold no `:`.
proof fn lemma_hex4_has_no_colon(v: u16)
    ensures
        forall|j: int| 0 <= j < hex4(v).len() ==> #[trigger] hex4(v)[j] != ':',
        hex4(v).len() == 4,
        hex_u16(hex4(v)) == Some(v),
{
    lemma_hex4_round_trip(v);
    assert forall|j: int| 0 <= j < hex4(v).len() implies #[trigger] hex4(v)[j] != ':' by {
        assert(crate::numbers::is_hex_digit(hex4(v)[j]));
    }
}

/// Reading a device identifier back gives the vendor and product id it was
/// written from, with or without a serial number.
pub proof fn lemma_device_id_round_trip(vid: u16, pid: u16, serial: Option<Seq<char>>)
    ensures
        baseline_device(device_id_text(vid, pid, serial)) == Some((vid, pid)),
{
    lemma_hex4_has_no_colon(vid);
    lemma_hex4_has_no_colon(pid);
    let id = device_id_text(vid, pid, serial);
    assert(id[4] == ':');
    assert forall|j: int| 0 <= j < 4 implies #[trigger] id[j] != ':' by {
        assert(id[j] == hex4(vid)[j]);
    }
    assert(first_occurrence(id, ':', 4));
    lemma_first_occurrence(id, ':', 4);
    assert(id.take(4) =~= hex4(vid));
    let rest = id.skip(5);
    match serial {
        Some(s) => {
            assert(rest =~= hex4(pid) + seq![':'] + s);
            assert(rest[4] == ':');
            assert forall|j: int| 0 <= j < 4 implies #[trigger] rest[j] != ':' by {
                assert(rest[j] == hex4(pid)[j]);
            }
            assert(first_occurrence(rest, ':', 4));
            lemma_first_occurrence(rest, ':', 4);
            assert(rest.take(4) =~= hex4(pid));
        },
        None => {
            assert(rest =~= hex4(pid));
            lemma_no_occurrence(rest, ':');
        },
    }
}

/// The key `VID:PID` names the device it was written from.
pub proof fn lemma_preference_key_round_trip(vid: u16, pid: u16)
    ensures
        preference_device(device_id_text(vid, pid, None)) == Some((vid, pid)),
{
    lemma_hex4_has_no_colon(vid);
    lemma_hex4_has_no_colon(pid);
    let id = device_id_text(vid, pid, None);
    assert forall|j: int| 0 <= j < 4 implies #[trigger] id[j] != ':' by {
        assert(id[j] == hex4(vid)[j]);
    }
    assert(first_occurrence(id, ':', 4));
    lemma_first_occurrence(id, ':', 4);
    assert(id.take(4) =~= hex4(vid));
    assert(id.skip(5) =~= hex4(pid));
}

/// After the baselines of a device are dropped, none of the remaining
/// baselines belongs to it, and every baseline of another device stays.
pub proof fn lemma_forgotten_device_gone(s: Seq<HidDeviceBaseline>, prefix: Seq<char>)
    ensures
        forall|i: int|
            0 <= i < baselines_without(s, prefix).len() ==> !starts_with(
                #[trigger] baselines_without(s, prefix)[i].device_id@,
                prefix,
            ),
        forall|i: int|
            0 <= i < s.len() && !starts_with(#[trigger] s[i].device_id@, prefix)
                ==> baselines_without(s, prefix).contains(s[i]),
    decreases s.len(),
{
    if s.len() > 0 {
        let t = s.drop_last();
        lemma_forgotten_device_gone(t, prefix);
        let r = baselines_without(t, prefix);
        assert forall|i: int|
            0 <= i < s.len() && !starts_with(#[trigger] s[i].device_id@, prefix)
                implies baselines_without(s, prefix).contains(s[i]) by {
            if i < t.len() {
                assert(t[i] == s[i]);
                assert(r.contains(s[i]));
                let k = choose|k: int| 0 <= k < r.len() && r[k] == s[i];
                if !starts_with(s.last().device_id@, prefix) {
                    assert(r.push(s.last())[k] == s[i]);
                }
            } else {
                assert(r.push(s.last())[r.len() as int] == s[i]);
            }
        }
    }
}

} // verus!
