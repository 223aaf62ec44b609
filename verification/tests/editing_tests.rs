use sorahk::config::{AppConfig, KeyMapping, XInputCaptureMode};
use sorahk::i18n::{CachedTranslations, Language};
use sorahk::draft::{DraftError, MappingDraft};
use sorahk::editing::{sequence_preview, SettingField};
use sorahk::small_lists::KeyList;

fn mapping(trigger: &str, targets: &[&str], mode: u8) -> KeyMapping {
    KeyMapping {
        trigger_key: trigger.to_string(),
        trigger_sequence: None,
        sequence_window_ms: 500,
        target_keys: KeyList::from_vec(targets.iter().map(|s| s.to_string()).collect()),
        target_mode: mode,
        interval: None,
        event_duration: None,
        turbo_enabled: true,
        move_speed: 5,
        note: String::new(),
        hold_indices: None,
        append_keys: None,
    }
}

fn strings(items: &[&str]) -> Vec<String> {
    items.iter().map(|s| s.to_string()).collect()
}

#[test]
fn switching_to_single_keeps_first_key() {
    let mut m = mapping("A", &["B", "C", "D"], 1);
    m.set_target_mode(0);
    assert_eq!(m.target_mode, 0);
    assert_eq!(m.get_target_keys(), strings(&["B"]).as_slice());
}

#[test]
fn switching_from_sequence_to_multi_drops_repeats() {
    let mut m = mapping("A", &["H", "E", "L", "L", "O", "H"], 2);
    m.set_target_mode(1);
    assert_eq!(m.get_target_keys(), strings(&["H", "E", "L", "O"]).as_slice());

    let mut s = mapping("A", &["X", "X"], 0);
    s.set_target_mode(2);
    assert_eq!(s.get_target_keys(), strings(&["X", "X"]).as_slice());
    s.set_target_mode(2);
    assert_eq!(s.target_mode, 2);
}

#[test]
fn mapping_field_edits() {
    let mut m = mapping("A", &["B"], 0);
    assert!(m.edit_interval("3"));
    assert_eq!(m.interval, Some(5));
    assert!(m.edit_interval("40"));
    assert_eq!(m.interval, Some(40));
    assert!(!m.edit_interval("4x"));
    assert_eq!(m.interval, Some(40));

    assert!(m.edit_event_duration("1"));
    assert_eq!(m.event_duration, Some(2));

    assert!(m.edit_move_speed("0", 100));
    assert_eq!(m.move_speed, 1);
    assert!(m.edit_move_speed("500", 100));
    assert_eq!(m.move_speed, 100);
    assert!(m.edit_move_speed("500", 1200));
    assert_eq!(m.move_speed, 500);
    assert!(m.edit_move_speed("-3", 1200));
    assert_eq!(m.move_speed, 1);

    assert!(m.edit_sequence_window("10"));
    assert_eq!(m.sequence_window_ms, 50);
    assert!(!m.edit_sequence_window(""));
    assert_eq!(m.sequence_window_ms, 50);
}

#[test]
fn rule_properties_drop_empty_lists() {
    let mut m = mapping("A", &["B", "C"], 0);
    m.set_rule_properties(vec![1], Vec::new());
    assert_eq!(m.hold_indices.as_ref().map(|h| h.as_slice().to_vec()), Some(vec![1]));
    assert!(m.append_keys.is_none());
    m.set_rule_properties(Vec::new(), strings(&["UP"]));
    assert!(m.hold_indices.is_none());
    assert_eq!(
        m.append_keys.as_ref().map(|a| a.as_slice().to_vec()),
        Some(strings(&["UP"]))
    );
}

#[test]
fn global_setting_edits() {
    let mut c = AppConfig::default();
    assert!(c.edit_setting(SettingField::InputTimeout, "1"));
    assert_eq!(c.input_timeout, 1);
    assert!(c.edit_setting(SettingField::Interval, "1"));
    assert_eq!(c.interval, 5);
    assert!(c.edit_setting(SettingField::EventDuration, "0"));
    assert_eq!(c.event_duration, 2);
    assert!(c.edit_setting(SettingField::MouseMovePerEventMin, "0"));
    assert_eq!(c.mouse_move_per_event_min_px, 1);
    assert!(c.edit_setting(SettingField::MouseMoveMinTrigger, "35"));
    assert_eq!(c.mouse_move_min_trigger_px, 35);
    assert!(c.edit_setting(SettingField::MouseMoveRearm, "0"));
    assert_eq!(c.mouse_move_rearm_px, 1);
    assert!(c.edit_setting(SettingField::WorkerCount, "8"));
    assert_eq!(c.worker_count, 8);
    assert!(!c.edit_setting(SettingField::WorkerCount, "eight"));
    assert_eq!(c.worker_count, 8);
    assert!(!c.edit_setting(SettingField::MouseMoveRearm, "4294967296"));
    assert_eq!(c.mouse_move_rearm_px, 1);
}

#[test]
fn fresh_draft_defaults() {
    let d = MappingDraft::new();
    assert_eq!(d.move_speed, "5");
    assert_eq!(d.sequence_window, "300");
    assert!(d.turbo);
    assert_eq!(d.target_mode, 0);
    assert!(d.trigger.is_empty() && d.target_keys.is_empty());
}

#[test]
fn adding_a_draft_uppercases_and_clamps() {
    let mut c = AppConfig::default();
    let mut d = MappingDraft::new();
    d.trigger = "f".to_string();
    d.target_keys = strings(&["space", "lshift"]);
    d.interval = "3".to_string();
    d.duration = "abc".to_string();
    d.move_speed = "250".to_string();
    d.target_mode = 1;
    d.hold_indices = vec![1];
    d.note = "dash".to_string();
    assert_eq!(c.add_mapping(&mut d), Ok(()));
    let m = c.mappings.last().unwrap();
    assert_eq!(m.trigger_key, "F");
    assert_eq!(m.trigger_sequence, None);
    assert_eq!(m.get_target_keys(), strings(&["SPACE", "LSHIFT"]).as_slice());
    assert_eq!(m.interval, Some(5));
    assert_eq!(m.event_duration, None);
    assert_eq!(m.move_speed, 100);
    assert_eq!(m.sequence_window_ms, 300);
    assert_eq!(m.target_mode, 1);
    assert_eq!(m.hold_indices.as_ref().map(|h| h.as_slice().to_vec()), Some(vec![1]));
    assert!(m.append_keys.is_none());
    assert_eq!(m.note, "dash");
    assert!(d.trigger.is_empty() && d.target_keys.is_empty() && d.hold_indices.is_empty());
    assert_eq!(d.move_speed, "5");
    assert_eq!(d.sequence_window, "300");
    assert!(d.note.is_empty() && d.interval.is_empty() && d.duration.is_empty());
    assert!(d.turbo);
    assert_eq!(d.target_mode, 0);
}

#[test]
fn adding_a_sequence_draft() {
    let mut c = AppConfig::default();
    let mut d = MappingDraft::new();
    d.sequence = strings(&["ls_down", "ls_right", "a"]);
    d.target_keys = strings(&["j"]);
    d.sequence_window = "20".to_string();
    assert_eq!(c.add_mapping(&mut d), Ok(()));
    let m = c.mappings.last().unwrap();
    assert_eq!(m.trigger_key, "LS_DOWN");
    assert_eq!(m.trigger_sequence.as_deref(), Some("LS_DOWN,LS_RIGHT,A"));
    assert_eq!(m.sequence_window_ms, 50);
    assert!(m.is_sequence_trigger());
}

#[test]
fn adding_a_duplicate_or_incomplete_draft_fails() {
    let mut c = AppConfig::default();
    let mut d = MappingDraft::new();
    d.trigger = "q".to_string();
    assert_eq!(c.add_mapping(&mut d), Err(DraftError::Incomplete));
    d.target_keys = strings(&["E"]);
    assert_eq!(c.add_mapping(&mut d), Err(DraftError::DuplicateTrigger));
    assert_eq!(c.mappings.len(), 1);
    assert_eq!(d.trigger, "q");
    assert_eq!(d.target_keys, strings(&["E"]));
    d.trigger.clear();
    assert_eq!(c.add_mapping(&mut d), Err(DraftError::Incomplete));
}

#[test]
fn draft_targets_and_hold_marks() {
    let mut d = MappingDraft::new();
    d.add_target("A".to_string());
    d.add_target("B".to_string());
    d.add_target("A".to_string());
    d.add_target("C".to_string());
    assert_eq!(d.target_keys, strings(&["A", "B", "C"]));
    d.hold_indices = vec![0, 1, 2];
    d.remove_target(1);
    assert_eq!(d.target_keys, strings(&["A", "C"]));
    assert_eq!(d.hold_indices, vec![0, 1]);
    d.remove_target(0);
    assert_eq!(d.target_keys, strings(&["C"]));
    assert_eq!(d.hold_indices, vec![0]);
}

#[test]
fn sequence_keys_are_split_and_trimmed() {
    let mut m = mapping("A", &["B"], 0);
    assert!(m.sequence_keys().is_empty());
    m.trigger_sequence = Some(" down , right,,a ".to_string());
    assert_eq!(m.sequence_keys(), strings(&["down", "right", "a"]));
}

#[test]
fn removing_sequence_keys() {
    let mut m = mapping("DOWN", &["J"], 0);
    m.trigger_sequence = Some("DOWN,RIGHT,A".to_string());
    m.remove_sequence_key(0);
    assert_eq!(m.trigger_key, "RIGHT");
    assert_eq!(m.trigger_sequence.as_deref(), Some("RIGHT,A"));
    m.remove_sequence_key(1);
    assert_eq!(m.trigger_sequence.as_deref(), Some("RIGHT"));
    m.remove_sequence_key(0);
    assert_eq!(m.trigger_key, "");
    assert_eq!(m.trigger_sequence.as_deref(), Some(""));
}

#[test]
fn capture_mode_labels() {
    let t = CachedTranslations::new(Language::English);
    assert_eq!(XInputCaptureMode::MostSustained.label(&t), t.capture_mode_most_sustained());
    assert_eq!(XInputCaptureMode::LastStable.label(&t), t.capture_mode_last_stable());
    assert_eq!(
        XInputCaptureMode::DiagonalPriority.label(&t),
        t.capture_mode_diagonal_priority()
    );
}

#[test]
fn sequence_previews() {
    for n in 0..7 {
        let keys: Vec<String> = (0..n).map(|i| format!("K{i}")).collect();
        let expected = if keys.len() <= 3 {
            keys.join(" → ")
        } else {
            format!("{} keys: ... → {}", keys.len(), keys.last().unwrap())
        };
        assert_eq!(sequence_preview(&keys), expected);
    }
    assert_eq!(sequence_preview(&strings(&["DOWN", "RIGHT"])), "DOWN → RIGHT");
    assert_eq!(sequence_preview(&strings(&["W", "A", "S", "D"])), "4 keys: ... → D");
}

#[test]
fn deleting_a_target_key_moves_hold_marks() {
    let mut m = mapping("A", &["B", "C", "D"], 1);
    m.set_rule_properties(vec![0, 1, 2], Vec::new());
    m.delete_target_key(1);
    assert_eq!(m.get_target_keys(), strings(&["B", "D"]).as_slice());
    assert_eq!(m.hold_indices.as_ref().map(|h| h.as_slice().to_vec()), Some(vec![0, 1]));

    let mut single = mapping("A", &["B", "C"], 1);
    single.set_rule_properties(vec![1], Vec::new());
    single.delete_target_key(1);
    assert_eq!(single.get_target_keys(), strings(&["B"]).as_slice());
    assert!(single.hold_indices.is_none());

    let mut none = mapping("A", &["B"], 0);
    none.set_rule_properties(vec![3], Vec::new());
    none.delete_target_key(5);
    assert_eq!(none.get_target_keys(), strings(&["B"]).as_slice());
    assert_eq!(none.hold_indices.as_ref().map(|h| h.as_slice().to_vec()), Some(vec![3]));
    none.delete_target_key(2);
    assert_eq!(none.get_target_keys(), strings(&["B"]).as_slice());
    assert_eq!(none.hold_indices.as_ref().map(|h| h.as_slice().to_vec()), Some(vec![2]));
}

#[test]
fn trigger_kind_switches() {
    let mut m = mapping("A", &["B"], 0);
    m.set_sequence_trigger(true);
    assert_eq!(m.trigger_sequence.as_deref(), Some("A"));
    m.set_sequence_trigger(true);
    assert_eq!(m.trigger_sequence.as_deref(), Some("A"));
    m.set_sequence_trigger(false);
    assert_eq!(m.trigger_sequence, None);
    assert_eq!(m.trigger_key, "A");

    let mut empty = mapping("", &["B"], 0);
    empty.set_sequence_trigger(true);
    assert_eq!(empty.trigger_sequence.as_deref(), Some(""));

    let mut s = mapping("A", &["B"], 0);
    s.trigger_sequence = Some("A,B".to_string());
    s.clear_trigger();
    assert_eq!(s.trigger_key, "");
    assert_eq!(s.trigger_sequence.as_deref(), Some(""));
    let mut k = mapping("A", &["B"], 0);
    k.clear_trigger();
    assert_eq!(k.trigger_key, "");
    assert_eq!(k.trigger_sequence, None);
}

#[test]
fn removing_a_mapping() {
    let mut c = AppConfig::default();
    c.mappings.push(mapping("W", &["UP"], 0));
    c.mappings.push(mapping("S", &["DOWN"], 0));
    c.remove_mapping(1);
    let triggers: Vec<&str> = c.mappings.iter().map(|m| m.trigger_key.as_str()).collect();
    assert_eq!(triggers, vec!["Q", "S"]);
    assert_eq!(c.presets.len(), 1);
}
