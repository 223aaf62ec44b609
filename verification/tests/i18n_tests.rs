use sorahk::i18n::{get_raw_translation, CachedTranslations, Language, RawKey};

#[test]
fn language_numbers_round_trip() {
    for (i, lang) in Language::all().iter().enumerate() {
        assert_eq!(lang.to_u8() as usize, i);
        assert_eq!(Language::from_u8(lang.to_u8()), *lang);
    }
    assert_eq!(Language::all().len(), 5);
    assert_eq!(Language::from_u8(5), Language::English);
    assert_eq!(Language::from_u8(255), Language::English);
    assert_eq!(Language::default(), Language::English);
}

#[test]
fn display_names() {
    assert_eq!(Language::English.display_name(), "English");
    assert_eq!(Language::SimplifiedChinese.display_name(), "简体中文");
    assert_eq!(Language::TraditionalChinese.display_name(), "繁體中文");
    assert_eq!(Language::Japanese.display_name(), "日本語");
    assert_eq!(Language::Korean.display_name(), "한국어");
}

#[test]
fn translations_follow_the_language() {
    for lang in Language::all() {
        let t = CachedTranslations::new(*lang);
        assert_eq!(t.app_title(), get_raw_translation(*lang, RawKey::AppTitle));
        assert_eq!(t.error_close_button(), t.device_manager_close_button());
        assert_eq!(t.about_mit_license(), "MIT License");
        assert_eq!(t.about_rust_egui(), "Rust + egui");
        assert!(!t.settings_button().is_empty());
    }
    let en = CachedTranslations::new(Language::English);
    let ja = CachedTranslations::new(Language::Japanese);
    assert_ne!(en.settings_dialog_title(), ja.settings_dialog_title());
    assert_eq!(en.language(), get_raw_translation(Language::English, RawKey::Language));
    assert_eq!(en.hotkeys_section_title(), get_raw_translation(Language::English, RawKey::ToggleKeySection));
}

#[test]
fn formatted_counts() {
    let t = CachedTranslations::new(Language::English);
    assert_eq!(t.format_keys_count(3), format!("3 {}", t.keys_text()));
    assert_eq!(t.format_targets_count(12), format!("12 {}", t.targets_text()));
    assert_eq!(t.format_worker_count(0), format!("{} 0", t.worker_count_label()));
    assert_eq!(t.format_keys_count(1234567890), format!("1234567890 {}", t.keys_text()));
}
