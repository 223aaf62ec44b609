use sorahk::config::{AppConfig, KeyMapping, Preset};
use sorahk::small_lists::KeyList;

fn mapping(trigger: &str, targets: &[&str]) -> KeyMapping {
    KeyMapping {
        trigger_key: trigger.to_string(),
        trigger_sequence: None,
        sequence_window_ms: 500,
        target_keys: KeyList::from_vec(targets.iter().map(|s| s.to_string()).collect()),
        target_mode: 0,
        interval: None,
        event_duration: None,
        turbo_enabled: true,
        move_speed: 5,
        note: String::new(),
        hold_indices: None,
        append_keys: None,
    }
}

fn triggers(mappings: &[KeyMapping]) -> Vec<String> {
    mappings.iter().map(|m| m.trigger_key.clone()).collect()
}

fn names(config: &AppConfig) -> Vec<String> {
    config.presets.iter().map(|p| p.name.clone()).collect()
}

#[test]
fn save_then_load_gives_back_the_mappings() {
    let mut config = AppConfig::default();
    config.mappings = vec![mapping("A", &["B"]), mapping("C", &["D", "E"])];
    assert!(config.save_preset("combat".to_string()));
    assert_eq!(names(&config), vec!["无", "combat"]);

    config.mappings = vec![mapping("X", &["Y"])];
    config.load_preset(1);
    assert_eq!(triggers(&config.mappings), vec!["A", "C"]);
    assert_eq!(config.mappings[1].get_target_keys(), &["D".to_string(), "E".to_string()]);
    assert_eq!(config.current_preset, "combat");
}

#[test]
fn save_under_existing_name_replaces_its_mappings() {
    let mut config = AppConfig::default();
    config.mappings = vec![mapping("A", &["B"])];
    assert!(config.save_preset("无".to_string()));
    assert_eq!(names(&config), vec!["无"]);
    assert_eq!(triggers(&config.presets[0].mappings), vec!["A"]);
}

#[test]
fn save_with_empty_name_does_nothing() {
    let mut config = AppConfig::default();
    assert!(!config.save_preset(String::new()));
    assert_eq!(names(&config), vec!["无"]);
}

#[test]
fn rename_follows_the_active_preset() {
    let mut config = AppConfig::default();
    config.presets.push(Preset {
        name: "two".to_string(),
        mappings: vec![mapping("Q", &["W"])],
    });
    config.load_preset(1);
    assert!(config.rename_preset(1, "second".to_string()));
    assert_eq!(names(&config), vec!["无", "second"]);
    assert_eq!(config.current_preset, "second");

    assert!(!config.rename_preset(0, "second".to_string()));
    assert!(!config.rename_preset(0, String::new()));
    assert_eq!(names(&config), vec!["无", "second"]);

    assert!(config.rename_preset(0, "first".to_string()));
    assert_eq!(config.current_preset, "second");
}

#[test]
fn delete_clears_the_active_preset() {
    let mut config = AppConfig::default();
    config.presets.push(Preset {
        name: "two".to_string(),
        mappings: Vec::new(),
    });
    config.load_preset(1);
    config.delete_preset(0);
    assert_eq!(config.current_preset, "two");
    config.delete_preset(0);
    assert_eq!(config.current_preset, "");
    assert!(config.presets.is_empty());
}

#[test]
fn select_none_keeps_mappings() {
    let mut config = AppConfig::default();
    config.select_preset(Some(0));
    assert_eq!(config.current_preset, "无");
    assert!(config.mappings.is_empty());
    config.mappings = vec![mapping("A", &["B"])];
    config.select_preset(None);
    assert_eq!(config.current_preset, "");
    assert_eq!(triggers(&config.mappings), vec!["A"]);
}

#[test]
fn sync_writes_mappings_into_active_preset() {
    let mut config = AppConfig::default();
    config.select_preset(Some(0));
    config.mappings = vec![mapping("F", &["G"])];
    config.sync_active_preset();
    assert_eq!(triggers(&config.presets[0].mappings), vec!["F"]);

    let mut idle = AppConfig::default();
    idle.mappings = vec![mapping("F", &["G"])];
    idle.sync_active_preset();
    assert!(idle.presets[0].mappings.is_empty());
}

#[test]
fn mapping_clone_keeps_values() {
    let mut m = mapping("A", &["B", "C"]);
    m.trigger_sequence = Some("A,B".to_string());
    m.note = "note".to_string();
    let c = m.clone();
    assert_eq!(c.trigger_key, "A");
    assert_eq!(c.trigger_sequence.as_deref(), Some("A,B"));
    assert_eq!(c.get_target_keys(), m.get_target_keys());
    assert_eq!(c.note, "note");
}
