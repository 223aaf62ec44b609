use sorahk::config::{
    ApiPreferences, AppConfig, DeviceApiPreference, HidDeviceBaseline, KeyMapping, Preset,
    XInputCaptureMode,
};
use sorahk::i18n::Language;
use sorahk::small_lists::{IndexList, KeyList};

fn keys(items: &[&str]) -> KeyList {
    KeyList::from_vec(items.iter().map(|s| s.to_string()).collect())
}

fn parse(text: &str) -> toml::Table {
    toml::from_str::<toml::Table>(text).expect("configuration text should parse")
}

fn strings(value: &toml::Value) -> Vec<String> {
    value
        .as_array()
        .expect("array")
        .iter()
        .map(|v| v.as_str().expect("string").to_string())
        .collect()
}

#[test]
fn test_default_config_creation() {
    let config = AppConfig::default();

    assert!(config.show_tray_icon);
    assert!(config.show_notifications);
    assert!(!config.always_on_top);
    assert!(!config.dark_mode);
    assert_eq!(config.switch_key, "DELETE");
    assert_eq!(config.input_timeout, 5);
    assert_eq!(config.interval, 5);
    assert_eq!(config.event_duration, 5);
    assert_eq!(config.worker_count, 0);
    assert!(config.process_whitelist.is_empty());
    assert_eq!(config.mappings.len(), 1);
    assert_eq!(config.presets.len(), 1);
}

#[test]
fn test_config_save_and_load() {
    let mut config = AppConfig::default();
    config.show_tray_icon = false;
    config.show_notifications = false;
    config.always_on_top = true;
    config.dark_mode = true;
    config.switch_key = "F12".to_string();
    config.input_timeout = 20;
    config.interval = 10;
    config.event_duration = 15;
    config.worker_count = 4;

    let table = parse(&config.to_config_text());

    assert_eq!(table["show_tray_icon"].as_bool(), Some(config.show_tray_icon));
    assert_eq!(table["show_notifications"].as_bool(), Some(config.show_notifications));
    assert_eq!(table["always_on_top"].as_bool(), Some(config.always_on_top));
    assert_eq!(table["dark_mode"].as_bool(), Some(config.dark_mode));
    assert_eq!(table["switch_key"].as_str(), Some(config.switch_key.as_str()));
    assert_eq!(table["input_timeout"].as_integer(), Some(config.input_timeout as i64));
    assert_eq!(table["interval"].as_integer(), Some(config.interval as i64));
    assert_eq!(table["event_duration"].as_integer(), Some(config.event_duration as i64));
    assert_eq!(table["worker_count"].as_integer(), Some(config.worker_count as i64));
}

fn config_with_timing(input_timeout: u64, interval: u64, event_duration: u64) -> AppConfig {
    let mut config = AppConfig::default();
    config.input_timeout = input_timeout;
    config.interval = interval;
    config.event_duration = event_duration;
    config.mappings = Vec::new();
    config
}

#[test]
fn test_config_validation_input_timeout() {
    let config = config_with_timing(1, 5, 5).apply_load_rules();
    assert!(
        config.input_timeout >= 2,
        "Input timeout should be clamped to minimum 2"
    );
}

#[test]
fn test_config_validation_interval() {
    let config = config_with_timing(10, 2, 5).apply_load_rules();
    assert!(
        config.interval >= 5,
        "Interval should be clamped to minimum 5"
    );
}

#[test]
fn test_config_validation_event_duration() {
    let config = config_with_timing(10, 5, 2).apply_load_rules();
    assert!(
        config.event_duration >= 2,
        "Event duration should be clamped to minimum 2"
    );
}

#[test]
fn test_load_or_create_missing_file() {
    let (config, must_write) = AppConfig::settle_loaded(None);

    assert!(must_write, "Config file should be created");
    assert_eq!(config.switch_key, "DELETE");
    assert_eq!(config.interval, 5);
}

#[test]
fn test_load_or_create_existing_file() {
    let mut config = AppConfig::default();
    config.switch_key = "F11".to_string();
    let table = parse(&config.to_config_text());
    assert_eq!(table["switch_key"].as_str(), Some("F11"));

    let (loaded_config, must_write) = AppConfig::settle_loaded(Some(config));

    assert!(!must_write);
    assert_eq!(loaded_config.switch_key, "F11");
}

#[test]
fn test_key_mapping_with_overrides() {
    let mapping = KeyMapping {
        trigger_key: "A".to_string(),
        target_keys: keys(&["B"]),
        interval: Some(10),
        event_duration: Some(8),
        turbo_enabled: true,
        move_speed: 10,
        note: String::new(),
        target_mode: 0,
        trigger_sequence: None,
        sequence_window_ms: 500,
        hold_indices: None,
        append_keys: None,
    };

    assert_eq!(mapping.trigger_key, "A");
    assert_eq!(mapping.target_keys.as_slice(), &["B".to_string()]);
    assert_eq!(mapping.interval, Some(10));
    assert_eq!(mapping.event_duration, Some(8));
}

#[test]
fn test_key_mapping_without_overrides() {
    let mapping = KeyMapping {
        trigger_key: "C".to_string(),
        target_keys: keys(&["D"]),
        interval: None,
        event_duration: None,
        turbo_enabled: true,
        move_speed: 10,
        note: String::new(),
        target_mode: 0,
        trigger_sequence: None,
        sequence_window_ms: 500,
        hold_indices: None,
        append_keys: None,
    };

    assert_eq!(mapping.trigger_key, "C");
    assert_eq!(mapping.target_keys.as_slice(), &["D".to_string()]);
    assert_eq!(mapping.interval, None);
    assert_eq!(mapping.event_duration, None);
}

#[test]
fn test_process_whitelist_serialization() {
    let mut config = AppConfig::default();
    config.process_whitelist = vec!["notepad.exe".to_string(), "chrome.exe".to_string()];

    let table = parse(&config.to_config_text());
    let loaded = strings(&table["process_whitelist"]);

    assert_eq!(loaded.len(), 2);
    assert!(loaded.contains(&"notepad.exe".to_string()));
    assert!(loaded.contains(&"chrome.exe".to_string()));
}

#[test]
fn test_language_serialization() {
    let languages = vec![
        (Language::English, "English"),
        (Language::SimplifiedChinese, "SimplifiedChinese"),
        (Language::TraditionalChinese, "TraditionalChinese"),
        (Language::Japanese, "Japanese"),
    ];

    for (lang, name) in languages.iter() {
        let mut config = AppConfig::default();
        config.language = *lang;

        let table = parse(&config.to_config_text());

        assert_eq!(table["language"].as_str(), Some(*name));
    }
}

fn plain_mapping(trigger: &str, targets: &[&str], interval: Option<u64>, duration: Option<u64>) -> KeyMapping {
    KeyMapping {
        trigger_key: trigger.to_string(),
        target_keys: keys(targets),
        interval,
        event_duration: duration,
        turbo_enabled: true,
        move_speed: 10,
        note: String::new(),
        target_mode: 0,
        trigger_sequence: None,
        sequence_window_ms: 500,
        hold_indices: None,
        append_keys: None,
    }
}

fn mapping_tables(table: &toml::Table) -> Vec<toml::Table> {
    table["mappings"]
        .as_array()
        .expect("mappings array")
        .iter()
        .map(|m| m.as_table().expect("mapping table").clone())
        .collect()
}

#[test]
fn test_multiple_mappings_serialization() {
    let mut config = AppConfig::default();
    config.mappings = vec![
        plain_mapping("A", &["1"], Some(10), Some(5)),
        plain_mapping("B", &["2"], None, None),
        plain_mapping("F1", &["SPACE"], Some(20), Some(10)),
    ];

    let table = parse(&config.to_config_text());
    let mappings = mapping_tables(&table);

    assert_eq!(mappings.len(), 3);
    assert_eq!(mappings[0]["trigger_key"].as_str(), Some("A"));
    assert_eq!(strings(&mappings[1]["target_keys"]), vec!["2".to_string()]);
    assert_eq!(mappings[2]["interval"].as_integer(), Some(20));
}

#[test]
fn test_config_with_extreme_values() {
    let mut config = AppConfig::default();
    config.interval = 1000;
    config.event_duration = 500;
    config.input_timeout = 10000;
    config.worker_count = 64;

    let table = parse(&config.to_config_text());

    assert_eq!(table["interval"].as_integer(), Some(1000));
    assert_eq!(table["event_duration"].as_integer(), Some(500));
    assert_eq!(table["input_timeout"].as_integer(), Some(10000));
    assert_eq!(table["worker_count"].as_integer(), Some(64));
}

#[test]
fn test_config_with_special_characters_in_process_name() {
    let mut config = AppConfig::default();
    config.process_whitelist = vec![
        "app-name.exe".to_string(),
        "app_name.exe".to_string(),
        "app123.exe".to_string(),
    ];

    let table = parse(&config.to_config_text());
    let loaded = strings(&table["process_whitelist"]);

    assert_eq!(loaded.len(), 3);
    assert!(loaded.contains(&"app-name.exe".to_string()));
}

#[test]
fn test_config_language_default() {
    let config = AppConfig::default();
    assert_eq!(config.language, Language::default());
}

#[test]
fn test_config_with_duplicate_process_names() {
    let mut config = AppConfig::default();
    config.process_whitelist = vec![
        "app.exe".to_string(),
        "app.exe".to_string(),
        "other.exe".to_string(),
    ];

    let table = parse(&config.to_config_text());
    assert_eq!(strings(&table["process_whitelist"]).len(), 3);

    let loaded = config.apply_load_rules();

    assert_eq!(loaded.process_whitelist.len(), 2);
}

#[test]
fn test_config_validation_clamps_negative_values() {
    let loaded = config_with_timing(1, 1, 1).apply_load_rules();

    assert!(loaded.input_timeout >= 2);
    assert!(loaded.interval >= 5);
    assert!(loaded.event_duration >= 2);
}

#[test]
fn test_config_deduplicates_process_whitelist() {
    let mut config = config_with_timing(10, 5, 5);
    config.process_whitelist = vec![
        "chrome.exe".to_string(),
        "notepad.exe".to_string(),
        "chrome.exe".to_string(),
        "firefox.exe".to_string(),
        "notepad.exe".to_string(),
    ];
    let loaded = config.apply_load_rules();

    assert_eq!(loaded.process_whitelist.len(), 3);
    assert!(loaded.process_whitelist.contains(&"chrome.exe".to_string()));
    assert!(loaded.process_whitelist.contains(&"notepad.exe".to_string()));
    assert!(loaded.process_whitelist.contains(&"firefox.exe".to_string()));
}

#[test]
fn test_multiple_target_keys_single() {
    let mapping = plain_mapping("A", &["B"], None, None);

    assert_eq!(mapping.target_keys.len(), 1);
    assert_eq!(mapping.target_keys_display(), "B");
}

#[test]
fn test_multiple_target_keys_multiple() {
    let mapping = plain_mapping("A", &["MOUSE_UP", "MOUSE_LEFT"], None, None);

    assert_eq!(mapping.target_keys.len(), 2);
    assert_eq!(mapping.target_keys_display(), "MOUSE_UP, MOUSE_LEFT");
}

#[test]
fn test_multiple_target_keys_empty() {
    let mapping = plain_mapping("A", &[], None, None);

    assert_eq!(mapping.target_keys.len(), 0);
    assert_eq!(mapping.target_keys_display(), "");
}

#[test]
fn test_add_target_key() {
    let mut mapping = plain_mapping("A", &["B"], None, None);

    mapping.add_target_key("C".to_string());
    assert_eq!(mapping.target_keys.len(), 2);
    assert_eq!(mapping.target_keys.as_slice()[1], "C");

    // Adding duplicate should not increase count
    mapping.add_target_key("B".to_string());
    assert_eq!(mapping.target_keys.len(), 2);
}

#[test]
fn test_clear_target_keys() {
    let mut mapping = plain_mapping("A", &["B", "C"], None, None);

    mapping.clear_target_keys();
    assert_eq!(mapping.target_keys.len(), 0);
}

#[test]
fn test_multiple_target_keys_serialization() {
    let mut config = AppConfig::default();
    config.mappings = vec![
        plain_mapping("Q", &["MOUSE_UP", "MOUSE_LEFT"], Some(5), None),
        plain_mapping("E", &["MOUSE_UP", "MOUSE_RIGHT"], Some(5), None),
    ];

    let table = parse(&config.to_config_text());
    let mappings = mapping_tables(&table);

    assert_eq!(mappings.len(), 2);
    let first = strings(&mappings[0]["target_keys"]);
    assert_eq!(first.len(), 2);
    assert_eq!(first[0], "MOUSE_UP");
    assert_eq!(first[1], "MOUSE_LEFT");
    let second = strings(&mappings[1]["target_keys"]);
    assert_eq!(second.len(), 2);
    assert_eq!(second[0], "MOUSE_UP");
    assert_eq!(second[1], "MOUSE_RIGHT");
}

#[test]
fn test_get_target_keys() {
    let mapping = plain_mapping("A", &["B", "C"], None, None);

    let keys = mapping.get_target_keys();
    assert_eq!(keys.len(), 2);
    assert_eq!(keys[0], "B");
    assert_eq!(keys[1], "C");
}

#[test]
fn test_empty_target_keys_serialization() {
    let mut config = AppConfig::default();
    config.mappings = vec![plain_mapping("A", &[], None, None)];

    let table = parse(&config.to_config_text());
    let mappings = mapping_tables(&table);

    assert_eq!(mappings.len(), 1);
    assert_eq!(strings(&mappings[0]["target_keys"]).len(), 0);
}

#[test]
fn test_many_target_keys_serialization() {
    let mut config = AppConfig::default();
    config.mappings = vec![plain_mapping("A", &["1", "2", "3", "4", "5", "6"], None, None)];

    let table = parse(&config.to_config_text());
    let mappings = mapping_tables(&table);

    assert_eq!(mappings.len(), 1);
    let targets = strings(&mappings[0]["target_keys"]);
    assert_eq!(targets.len(), 6);
    assert_eq!(targets[5], "6");
}

#[test]
fn test_sequence_hold_fields_roundtrip() {
    let mut config = AppConfig::default();
    config.mappings = vec![KeyMapping {
        trigger_key: "F1".to_string(),
        target_keys: keys(&["RIGHT", "RIGHT"]),
        interval: Some(5),
        event_duration: Some(5),
        turbo_enabled: false,
        move_speed: 5,
        note: String::new(),
        target_mode: 2,
        trigger_sequence: None,
        sequence_window_ms: 500,
        hold_indices: Some(IndexList::from_vec(vec![1u8])),
        append_keys: Some(keys(&["UP", "LSHIFT"])),
    }];

    let table = parse(&config.to_config_text());
    let mappings = mapping_tables(&table);

    assert_eq!(mappings.len(), 1);
    let m = &mappings[0];
    let holds: Vec<i64> = m["hold_indices"]
        .as_array()
        .expect("hold indices")
        .iter()
        .map(|v| v.as_integer().expect("integer"))
        .collect();
    assert_eq!(holds, vec![1]);
    let append = strings(&m["append_keys"]);
    assert_eq!(append.len(), 2);
    assert_eq!(append[0], "UP");
    assert_eq!(append[1], "LSHIFT");
}

#[test]
fn test_sequence_hold_fields_skip_when_none() {
    let mut config = AppConfig::default();
    config.mappings = vec![KeyMapping {
        trigger_key: "F1".to_string(),
        target_keys: keys(&["A"]),
        interval: None,
        event_duration: None,
        turbo_enabled: true,
        move_speed: 5,
        note: String::new(),
        target_mode: 0,
        trigger_sequence: None,
        sequence_window_ms: 500,
        hold_indices: None,
        append_keys: None,
    }];

    let raw_toml = config.to_config_text();
    let has_hold_assignment = raw_toml
        .lines()
        .any(|line| !line.trim_start().starts_with('#') && line.contains("hold_indices ="));
    let has_append_assignment = raw_toml
        .lines()
        .any(|line| !line.trim_start().starts_with('#') && line.contains("append_keys ="));
    assert!(
        !has_hold_assignment,
        "serialized TOML should omit hold_indices when None, got:\n{raw_toml}"
    );
    assert!(
        !has_append_assignment,
        "serialized TOML should omit append_keys when None, got:\n{raw_toml}"
    );

    let table = parse(&raw_toml);
    let mappings = mapping_tables(&table);
    assert!(mappings[0].get("hold_indices").is_none());
    assert!(mappings[0].get("append_keys").is_none());
}

#[test]
fn test_load_or_create_resets_on_malformed_file() {
    let (loaded, must_write) = AppConfig::settle_loaded(None);

    let default_cfg = AppConfig::default();
    assert!(must_write);
    assert_eq!(loaded.switch_key, default_cfg.switch_key);
    assert_eq!(loaded.mappings.len(), default_cfg.mappings.len());

    let table = parse(&loaded.to_config_text());
    assert_eq!(table["switch_key"].as_str(), Some(default_cfg.switch_key.as_str()));
}

// ─── further checks of the library ───

#[test]
fn default_text_parses_with_every_section() {
    let mut config = AppConfig::default();
    config.current_preset = String::new();
    config.hid_baselines = vec![HidDeviceBaseline {
        device_id: "045E:028E:1234567".to_string(),
        baseline_data: vec![0, 255, 127],
    }];
    let mut prefs = ApiPreferences::new();
    prefs.insert("045E:028E".to_string(), DeviceApiPreference::XInput);
    config.device_api_preferences = prefs;
    let text = config.to_config_text();
    let table = parse(&text);
    assert_eq!(table["xinput_stick_deadzone"].as_integer(), Some(7849));
    assert_eq!(table["sequence_finalize_key"].as_str(), Some("RETURN"));
    let presets = table["presets"].as_array().expect("presets");
    assert_eq!(presets.len(), 1);
    assert_eq!(presets[0]["name"].as_str(), Some("无"));
    let baselines = table["hid_baselines"].as_array().expect("baselines");
    let data: Vec<i64> = baselines[0]["baseline_data"]
        .as_array()
        .unwrap()
        .iter()
        .map(|v| v.as_integer().unwrap())
        .collect();
    assert_eq!(data, vec![0, 255, 127]);
    assert_eq!(table["device_api_preferences"]["045E:028E"].as_str(), Some("XInput"));
    assert!(text.contains("baseline_data = [0, 255, 127]\n"));
}

#[test]
fn mapping_text_lines() {
    let mut config = AppConfig::default();
    let mut m = plain_mapping("W", &["MOUSE_UP"], Some(7), None);
    m.trigger_sequence = Some("DOWN,RIGHT,A".to_string());
    m.sequence_window_ms = 300;
    m.move_speed = -3;
    m.note = "dash".to_string();
    m.target_mode = 1;
    config.mappings = vec![m];
    let text = config.to_config_text();
    assert!(text.contains("[[mappings]]\ntrigger_key = \"W\"           # Physical key you press\n"));
    assert!(text.contains("trigger_sequence = \"DOWN,RIGHT,A\"    # Input sequence (e.g., \"A,S,D\")\n"));
    assert!(text.contains("sequence_window_ms = 300       # Time window for sequence completion\n"));
    assert!(text.contains("target_keys = [\"MOUSE_UP\"]         # Key(s) that get repeatedly sent\n"));
    assert!(text.contains("target_mode = 1              # 0=Single, 1=Multi, 2=Sequence\n"));
    assert!(text.contains("interval = 7                # Override global interval\n"));
    assert!(text.contains("move_speed = -3              #"));
    assert!(text.contains("note = \"dash\"             # User note\n"));
    let table = parse(&text);
    let mappings = mapping_tables(&table);
    assert_eq!(mappings[0]["move_speed"].as_integer(), Some(-3));
    assert_eq!(mappings[0]["trigger_sequence"].as_str(), Some("DOWN,RIGHT,A"));
}

#[test]
fn empty_mappings_are_written_as_empty_array() {
    let mut config = AppConfig::default();
    config.mappings = Vec::new();
    config.presets = Vec::new();
    let text = config.to_config_text();
    assert!(text.ends_with("mappings = []\n"));
    let table = parse(&text);
    assert_eq!(table["mappings"].as_array().map(|a| a.len()), Some(0));
}

#[test]
fn header_starts_with_banner() {
    let text = AppConfig::default().to_config_text();
    assert!(text.starts_with("# ═══"));
    assert!(text.contains("show_tray_icon = true       # Show system tray icon on startup\n"));
    assert!(text.contains("language = \"English\"        # UI language"));
    assert!(text.contains("process_whitelist = []      # Example"));
}

#[test]
fn load_rules_sort_and_keep_large_values() {
    let mut config = config_with_timing(3, 9, 4);
    config.process_whitelist = vec!["b.exe".to_string(), "a.exe".to_string(), "b.exe".to_string()];
    let loaded = config.apply_load_rules();
    assert_eq!(loaded.input_timeout, 3);
    assert_eq!(loaded.interval, 9);
    assert_eq!(loaded.event_duration, 4);
    assert_eq!(loaded.process_whitelist, vec!["a.exe".to_string(), "b.exe".to_string()]);
    let again = loaded.clone().apply_load_rules();
    assert_eq!(again.process_whitelist, loaded.process_whitelist);
}

#[test]
fn add_target_key_in_sequence_mode_keeps_repeats() {
    let mut mapping = plain_mapping("A", &["B"], None, None);
    mapping.target_mode = 2;
    mapping.add_target_key("B".to_string());
    assert_eq!(mapping.get_target_keys(), &["B".to_string(), "B".to_string()]);
}

#[test]
fn remove_target_key_at_bounds() {
    let mut mapping = plain_mapping("A", &["B", "C", "D"], None, None);
    mapping.remove_target_key_at(1);
    assert_eq!(mapping.get_target_keys(), &["B".to_string(), "D".to_string()]);
    mapping.remove_target_key_at(5);
    assert_eq!(mapping.target_keys.len(), 2);
}

#[test]
fn sequence_accessors() {
    let mut mapping = plain_mapping("A", &["B"], None, None);
    assert!(!mapping.is_sequence_trigger());
    assert_eq!(mapping.sequence_string(), None);
    mapping.trigger_sequence = Some("A,S,D".to_string());
    assert!(mapping.is_sequence_trigger());
    assert_eq!(mapping.sequence_string(), Some("A,S,D"));
}

#[test]
fn capture_mode_names() {
    assert_eq!(XInputCaptureMode::MostSustained.as_str(), "MostSustained");
    assert_eq!(XInputCaptureMode::parse("LastStable"), XInputCaptureMode::LastStable);
    assert_eq!(XInputCaptureMode::parse("DiagonalPriority"), XInputCaptureMode::DiagonalPriority);
    assert_eq!(XInputCaptureMode::parse("MostSustained"), XInputCaptureMode::MostSustained);
    assert_eq!(XInputCaptureMode::parse("bogus"), XInputCaptureMode::default());
    assert_eq!(XInputCaptureMode::all_modes().len(), 3);
    for m in XInputCaptureMode::all_modes() {
        assert_eq!(XInputCaptureMode::parse(m.as_str()), *m);
    }
}

#[test]
fn api_preferences_read_back() {
    let mut prefs = ApiPreferences::new();
    assert!(prefs.is_empty());
    prefs.insert("A".to_string(), DeviceApiPreference::XInput);
    prefs.insert("B".to_string(), DeviceApiPreference::RawInput);
    prefs.insert("A".to_string(), DeviceApiPreference::Auto);
    assert_eq!(prefs.len(), 2);
    assert_eq!(prefs.get("A"), Some(DeviceApiPreference::Auto));
    assert_eq!(prefs.get("B"), Some(DeviceApiPreference::RawInput));
    assert_eq!(prefs.get("C"), None);
    assert_eq!(prefs.entries()[0].0, "A");
    assert_eq!(DeviceApiPreference::default(), DeviceApiPreference::Auto);
}

#[test]
fn preset_mappings_are_written() {
    let mut config = AppConfig::default();
    config.presets = vec![Preset {
        name: "fps".to_string(),
        mappings: vec![plain_mapping("X", &["Y", "Z"], Some(8), Some(3))],
    }];
    config.current_preset = "fps".to_string();
    let text = config.to_config_text();
    assert!(text.contains("[[presets.mappings]]\ntrigger_key = \"X\"\ntarget_keys = [\"Y\", \"Z\"]\ninterval = 8\nevent_duration = 3\nmove_speed = 10\nturbo_enabled = true\n"));
    assert!(text.contains("current_preset = \"fps\"\n\n"));
    let table = parse(&text);
    assert_eq!(table["current_preset"].as_str(), Some("fps"));
    let presets = table["presets"].as_array().expect("presets");
    assert_eq!(presets[0]["mappings"].as_array().map(|a| a.len()), Some(1));
    assert!(presets[0].get("current_preset").is_none());
}

#[test]
fn preset_mappings_keep_every_field() {
    let mut config = AppConfig::default();
    let mut m = plain_mapping("F5", &["H", "I"], None, None);
    m.target_mode = 2;
    m.trigger_sequence = Some("A,B".to_string());
    m.sequence_window_ms = 400;
    m.hold_indices = Some(IndexList::from_vec(vec![0]));
    m.append_keys = Some(keys(&["UP"]));
    config.presets = vec![Preset {
        name: "P".to_string(),
        mappings: vec![m],
    }];
    let table = parse(&config.to_config_text());
    let pm = &table["presets"].as_array().expect("presets")[0]["mappings"][0];
    assert_eq!(pm["trigger_key"].as_str(), Some("F5"));
    assert_eq!(pm["trigger_sequence"].as_str(), Some("A,B"));
    assert_eq!(pm["sequence_window_ms"].as_integer(), Some(400));
    assert_eq!(strings(&pm["target_keys"]), vec!["H".to_string(), "I".to_string()]);
    assert_eq!(pm["target_mode"].as_integer(), Some(2));
    assert_eq!(pm["hold_indices"].as_array().map(|a| a.len()), Some(1));
    assert_eq!(pm["hold_indices"][0].as_integer(), Some(0));
    assert_eq!(strings(&pm["append_keys"]), vec!["UP".to_string()]);
}

#[test]
fn defaults_of_mapping_fields() {
    assert_eq!(sorahk::config::default_move_speed(), 5);
    assert!(sorahk::config::default_turbo_enabled());
    assert_eq!(sorahk::config::default_target_keys().len(), 0);
    assert_eq!(sorahk::config::default_sequence_window(), 500);
    assert_eq!(sorahk::config::default_capture_mode(), "MostSustained");
    assert_eq!(sorahk::config::default_sequence_finalize_key(), "RETURN");
    assert_eq!(sorahk::config::default_xinput_trigger_threshold(), 30);
}

#[test]
fn capture_mode_from_str() {
    assert_eq!("LastStable".parse::<XInputCaptureMode>(), Ok(XInputCaptureMode::LastStable));
    assert_eq!(
        "DiagonalPriority".parse::<XInputCaptureMode>(),
        Ok(XInputCaptureMode::DiagonalPriority)
    );
    assert_eq!(
        "MostSustained".parse::<XInputCaptureMode>(),
        Ok(XInputCaptureMode::MostSustained)
    );
    for mode in XInputCaptureMode::all_modes() {
        assert_eq!(mode.as_str().parse::<XInputCaptureMode>(), Ok(*mode));
    }
    assert_eq!("mostsustained".parse::<XInputCaptureMode>(), Ok(XInputCaptureMode::DiagonalPriority));
    assert_eq!("".parse::<XInputCaptureMode>(), Ok(XInputCaptureMode::DiagonalPriority));
}
