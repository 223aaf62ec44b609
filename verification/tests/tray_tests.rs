use sorahk::i18n::{CachedTranslations, Language};
use sorahk::notify::{
    pause_menu_label, toast_xml, toggle_notice, tray_click, tray_command, xml_escape_fast,
    xml_escape_scalar, LoopPacer, TrayClick, TrayCommand, Utf16Cache,
};

#[test]
fn test_xml_escape_basic_chars() {
    assert_eq!(xml_escape_scalar("hello"), "hello");
    assert_eq!(xml_escape_scalar("test123"), "test123");
}

#[test]
fn test_xml_escape_ampersand() {
    assert_eq!(xml_escape_scalar("A & B"), "A &amp; B");
    assert_eq!(xml_escape_scalar("&&&"), "&amp;&amp;&amp;");
}

#[test]
fn test_xml_escape_less_than() {
    assert_eq!(xml_escape_scalar("A < B"), "A &lt; B");
    assert_eq!(xml_escape_scalar("<tag>"), "&lt;tag&gt;");
}

#[test]
fn test_xml_escape_greater_than() {
    assert_eq!(xml_escape_scalar("A > B"), "A &gt; B");
}

#[test]
fn test_xml_escape_quotes() {
    assert_eq!(
        xml_escape_scalar(r#"He said "hi""#),
        "He said &quot;hi&quot;"
    );
    assert_eq!(xml_escape_scalar("It's ok"), "It&apos;s ok");
}

#[test]
fn test_xml_escape_combined() {
    assert_eq!(
        xml_escape_scalar(r#"<tag attr="value">&text</tag>"#),
        "&lt;tag attr=&quot;value&quot;&gt;&amp;text&lt;/tag&gt;"
    );
}

#[test]
fn test_xml_escape_empty_string() {
    assert_eq!(xml_escape_scalar(""), "");
}

#[test]
fn test_utf16_cache() {
    let mut cache = Utf16Cache::new();

    let tooltip = cache.encode_tooltip("Test");
    assert!(tooltip.ends_with(&[0]));
    assert!(tooltip.len() > 1);

    let title = cache.encode_title("Title");
    assert!(title.ends_with(&[0]));

    let msg = cache.encode_message("Message");
    assert!(msg.ends_with(&[0]));
}

// ─── further checks of the library ───

#[test]
fn utf16_matches_std_encoding() {
    let mut cache = Utf16Cache::new();
    for text in ["Sorahk", "简体中文 🌸", "", "a\u{10FFFF}b"] {
        let expected: Vec<u16> = text.encode_utf16().chain(std::iter::once(0)).collect();
        assert_eq!(cache.encode_message(text), expected.as_slice());
        assert_eq!(cache.encode_tooltip(text), expected.as_slice());
        assert_eq!(cache.encode_title(text), expected.as_slice());
    }
}

#[test]
fn escape_fast_matches_scalar_on_long_text() {
    let text = "a long notification text with <markup> & \"quotes\" that is well over thirty-two characters";
    assert_eq!(xml_escape_fast(text), xml_escape_scalar(text));
    assert!(!xml_escape_fast(text).contains('<'));
}

#[test]
fn toast_document_holds_escaped_texts() {
    let xml = toast_xml("A & B", "<hi>");
    assert_eq!(
        xml,
        "<?xml version=\"1.0\" encoding=\"utf-8\"?>\n<toast duration=\"short\">\n    <visual>\n        <binding template=\"ToastGeneric\">\n            <text>A &amp; B</text>\n            <text>&lt;hi&gt;</text>\n        </binding>\n    </visual>\n    <audio silent=\"true\"/>\n</toast>"
    );
}

#[test]
fn tray_commands() {
    assert_eq!(tray_command(1010), TrayCommand::TogglePause);
    assert_eq!(tray_command(0x1_0000 + 1020), TrayCommand::ShowWindow);
    assert_eq!(tray_command(1030), TrayCommand::ShowAbout);
    assert_eq!(tray_command(1000), TrayCommand::Exit);
    assert_eq!(tray_command(7), TrayCommand::Ignore);
    assert_eq!(tray_click(0x0205), TrayClick::ContextMenu);
    assert_eq!(tray_click(0x0203), TrayClick::RestoreWindow);
    assert_eq!(tray_click(0x0200), TrayClick::Ignore);
}

#[test]
fn tray_texts_follow_pause_state() {
    let t = CachedTranslations::new(Language::English);
    assert_eq!(pause_menu_label(&t, true), t.tray_activate());
    assert_eq!(pause_menu_label(&t, false), t.tray_pause());
    assert_eq!(toggle_notice(&t, true), t.tray_notification_activated());
    assert_eq!(toggle_notice(&t, false), t.tray_notification_paused());
}

#[test]
fn loop_pacer_backs_off() {
    let mut pacer = LoopPacer::new();
    let mut checks = 0;
    for _ in 0..30 {
        if pacer.begin_iteration() {
            checks += 1;
        }
    }
    assert_eq!(checks, 3);
    let sleeps: Vec<u32> = (0..60).map(|_| pacer.on_idle()).collect();
    assert_eq!(sleeps[0], 1);
    assert_eq!(sleeps[8], 1);
    assert_eq!(sleeps[9], 5);
    assert_eq!(sleeps[48], 5);
    assert_eq!(sleeps[49], 10);
    pacer.on_activity();
    assert_eq!(pacer.on_idle(), 1);
}
