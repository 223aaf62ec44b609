//! The text of the configuration file: a TOML document with a commented
//! header that documents every setting, followed by the mappings,
//! presets and device data.

use vstd::prelude::*;
use vstd::string::StrSliceExecFns;

use crate::config::{
    entry_texts, ApiPreferenceEntries, ApiPreferences, AppConfig, DeviceApiPreference,
    HidDeviceBaseline, KeyMapping, Preset,
};
use crate::i18n::Language;
use crate::small_lists::KeyList;
use crate::text::{
    bool_text, decimal, join, push_bool, push_decimal, push_joined, push_signed_decimal,
    push_str, quoted_all, signed_decimal, texts,
};

verus! {

/// Header text before the value it is named after.
pub const HEAD_TRAY: &'static str = "# ═══════════════════════════════════════════════════════\n\
    #  🌸 Sorahk Configuration File 🌸\n\
    # ═══════════════════════════════════════════════════════\n\n\
    # ─── General Settings ───\n\
    show_tray_icon = ";

/// Header text before the value it is named after.
pub const HEAD_NOTIFICATIONS: &'static str = "       # Show system tray icon on startup\n\
    show_notifications = ";

/// Header text before the value it is named after.
pub const HEAD_ON_TOP: &'static str = "   # Enable/disable system notifications\n\
    always_on_top = ";

/// Header text before the value it is named after.
pub const HEAD_DARK_MODE: &'static str = "       # Keep window always on top of other windows\n\
    dark_mode = ";

/// Header text before the value it is named after.
pub const HEAD_LANGUAGE: &'static str = "           # Use dark theme (false = light theme, true = dark theme)\n\
    language = \"";

/// Header text before the value it is named after.
pub const HEAD_INPUT_TIMEOUT: &'static str = "\"        # UI language: \"English\", \"SimplifiedChinese\", \"TraditionalChinese\", \"Japanese\"\n\n\
    # ─── Performance Settings ───\n\
    input_timeout = ";

/// Header text before the value it is named after.
pub const HEAD_INTERVAL: &'static str = "          # Input timeout in ms\n\
    interval = ";

/// Header text before the value it is named after.
pub const HEAD_EVENT_DURATION: &'static str = "                # Default repeat interval between keystrokes (ms)\n\
    event_duration = ";

/// Header text before the value it is named after.
pub const HEAD_WORKER_COUNT: &'static str = "          # Duration of each simulated key press (ms)\n\
    worker_count = ";

/// Header text before the value it is named after.
pub const HEAD_XINPUT_MODE: &'static str = "            # Number of turbo workers (0 = auto-detect based on CPU cores)\n\n\
    # ─── XInput Settings ───\n\
    xinput_capture_mode = \"";

/// Header text before the value it is named after.
pub const HEAD_DEADZONE: &'static str = "\"  # XInput capture mode: \"DiagonalPriority\", \"MostSustained\", \"LastStable\"\n\
    # DiagonalPriority: Prioritizes diagonal stick directions over straight directions\n\
    # MostSustained: Captures the most sustained input pattern\n\
    # LastStable: Captures the last stable input before release\n\
    # Note: Compile with RUSTFLAGS=\"-C target-feature=+avx2\" for AVX2 optimizations\n\
    xinput_stick_deadzone = ";

/// Header text before the value it is named after.
pub const HEAD_TRIGGER_THRESHOLD: &'static str = "    # Analog-stick deadzone applied to all XInput devices (0-32767)\n\
    xinput_trigger_threshold = ";

/// Header text before the value it is named after.
pub const HEAD_MOVE_MIN: &'static str = " # Trigger activation threshold applied to all XInput devices (0-255)\n\
    mouse_move_per_event_min_px = ";

/// Header text before the value it is named after.
pub const HEAD_MOVE_TRIGGER: &'static str = " # Minimum per-event delta in pixels for a mouse event to count (noise floor)\n\
    mouse_move_min_trigger_px = ";

/// Header text before the value it is named after.
pub const HEAD_MOVE_REARM: &'static str = "   # Accumulated pixels required to fire a directional trigger\n\
    mouse_move_rearm_px = ";

/// Header text before the value it is named after.
pub const HEAD_SWITCH_KEY: &'static str = "         # Reverse-direction distance in pixels before same direction can fire again\n\n\
    # ─── Control Settings ───   \n\
    switch_key = \"";

/// Header text before the value it is named after.
pub const HEAD_FINALIZE_KEY: &'static str = "\"       # Reserved key to toggle SoraHK behavior\n\
    sequence_finalize_key = \"";

/// Header text before the value it is named after.
pub const HEAD_WHITELIST: &'static str = "\"  # Key that stops a sequence capture in Settings\n\n\
    # ─── Process Whitelist ───\n\
    # Process whitelist (empty = all processes enabled)\n\
    # Only processes in this list will have turbo-fire enabled\n\
    process_whitelist = ";

/// Header text before the value it is named after.
pub const HEAD_TAIL: &'static str = "      # Example: [\"notepad.exe\", \"game.exe\"]\n\n\
    # ─── Input Mappings ───\n\
    # Input mapping definitions (supports keyboard, mouse, and HID devices)\n\
    # Supported mouse buttons: LBUTTON, RBUTTON, MBUTTON, XBUTTON1, XBUTTON2\n\
    # Key combinations: Use '+' to separate keys (e.g., \"LALT+A\", \"RCTRL+RSHIFT+S\")\n\n\
    # Turbo Mode Behavior:\n\
    # - turbo_enabled = true: Auto-repeat with configurable interval (for rapid fire/continuous action)\n\
    # - turbo_enabled = false: Press-to-press, release-to-release behavior\n\
    #   * Keyboard targets: Supports Windows key repeat (holding trigger sends repeated key presses)\n\
    #   * Mouse button targets: Pure follow mode (press follows trigger press, release follows trigger release)\n\
    #   * Note: event_duration is ignored in non-turbo mode\n\n\
    # ─── Rule Properties (per mapping, any target mode) ───\n\
    # - hold_indices = [<u8>, ...]  # 0-based positions within target_keys that stay held after the body plays\n\
    #   * target_mode = 0 / 1 (Single / Multi): body keys press simultaneously; marked indices remain held after duration\n\
    #   * target_mode = 2 (Sequence): body keys play one-by-one; marked indices only press (no release), so they linger\n\
    #   * Values >= target_keys.len() or >= 16 are ignored\n\
    # - append_keys = [\"UP\", \"LSHIFT\", ...]  # extra keys pressed and held after the body\n\
    #   * Keyboard / mouse-button names remain held until trigger release\n\
    #   * Mouse-move / mouse-scroll names fire a single edge event per pass\n\
    # Interaction with turbo_enabled:\n\
    #   * turbo_enabled = false: body plays once, then hold_indices + append stay held until trigger release\n\
    #   * turbo_enabled = true:  only the hold_indices subset + append is cycled at interval / duration; body is not replayed\n\n\
    # ─── Key Combo Examples ───\n\
    # Combo key mappings: Use '+' to separate keys\n\
    # - Supports modifier keys: LSHIFT/RSHIFT, LCTRL/RCTRL, LALT/RALT, LWIN/RWIN\n\
    # - Supports single modifier keys as triggers (e.g., \"LSHIFT\")\n\
    # - Multiple combos with shared modifiers work simultaneously (e.g., LALT+1, RALT+2)\n\
    # - Distinguishes left/right modifiers (e.g., \"LSHIFT+1\" only triggers with left Shift)\n\
    # Uncomment to enable combo key mappings:\n\
    # [[mappings]]\n\
    # trigger_key = \"LALT+1\"      # Left ALT + 1 (won't trigger with right ALT)\n\
    # target_keys = [\"F1\"]        # Auto-press F1\n\n\
    # [[mappings]]\n\
    # trigger_key = \"CTRL+SHIFT+F\"  # Multiple modifiers\n\
    # target_keys = [\"LALT+F4\"]     # Output can also be combo\n\n\
    # ─── Mouse Button Examples ───\n\
    # Uncomment to enable mouse button mappings:\n\
    # [[mappings]]\n\
    # trigger_key = \"LBUTTON\"     # Left mouse button trigger\n\
    # target_keys = [\"LBUTTON\"]   # Auto-click left button\n\n\
    # [[mappings]]\n\
    # trigger_key = \"RBUTTON\"     # Right mouse button trigger\n\
    # target_keys = [\"SPACE\"]     # Press space when right-clicking\n\n\
    # [[mappings]]\n\
    # trigger_key = \"XBUTTON1\"    # Side button 1 trigger\n\
    # target_keys = [\"F\"]         # Auto-press F key\n\n\
    # ─── Mouse Movement Examples ───\n\
    # [[mappings]]\n\
    # trigger_key = \"W\"           # Trigger key\n\
    # target_keys = [\"MOUSE_UP\"]  # Move cursor upward\n\
    # move_speed = 5              # Speed in pixels (1-100)\n\
    # interval = 5                # Update interval in ms\n\
    # turbo_enabled = true        # Required for continuous movement\n\n\
    # [[mappings]]\n\
    # trigger_key = \"S\"\n\
    # target_keys = [\"MOUSE_DOWN\"]\n\
    # move_speed = 5\n\
    # interval = 5\n\
    # turbo_enabled = true\n\n\
    # Multiple target keys for diagonal movement (simultaneous press):\n\
    # [[mappings]]\n\
    # trigger_key = \"Q\"\n\
    # target_keys = [\"MOUSE_UP\", \"MOUSE_LEFT\"]  # Move diagonally up-left\n\
    # move_speed = 5\n\
    # interval = 5\n\
    # turbo_enabled = true\n\n\
    # Or use built-in diagonal directions:\n\
    # Diagonal: MOUSE_UP_LEFT, MOUSE_UP_RIGHT, MOUSE_DOWN_LEFT, MOUSE_DOWN_RIGHT\n\n\
    # ─── Mouse Scroll Examples ───\n\
    # [[mappings]]\n\
    # trigger_key = \"PAGEUP\"       # Trigger key\n\
    # target_keys = [\"SCROLL_UP\"]  # Scroll wheel upward\n\
    # move_speed = 120             # Wheel delta (120 = standard notch)\n\
    # interval = 5                 # Repeat interval in ms\n\
    # turbo_enabled = true         # true = continuous, false = Windows repeat\n\n\
    # [[mappings]]\n\
    # trigger_key = \"PAGEDOWN\"\n\
    # target_keys = [\"SCROLL_DOWN\"]\n\
    # move_speed = 240             # Wheel delta (240 = 2x)\n\
    # interval = 5\n\
    # turbo_enabled = true\n\n\
    # ─── HID Device Examples (Gamepads, Joysticks, Custom Controllers) ───\n\
    # Automatic support for any HID device via GUI capture!\n\
    # \n\
    # XInput Controllers (Xbox, compatible gamepads):\n\
    #   Format: GAMEPAD_VID_ButtonName[+ButtonName...] (readable format)\n\
    #   Buttons: A, B, X, Y, Start, Back, LB, RB, LS_Click, RS_Click, LT, RT\n\
    #   D-Pad: DPad_Up, DPad_Down, DPad_Left, DPad_Right, DPad_UpLeft, DPad_UpRight, DPad_DownLeft, DPad_DownRight\n\
    #   Left Stick: LS_Up, LS_Down, LS_Left, LS_Right, LS_LeftUp, LS_LeftDown, LS_RightUp, LS_RightDown\n\
    #   Right Stick: RS_Up, RS_Down, RS_Left, RS_Right, RS_LeftUp, RS_LeftDown, RS_RightUp, RS_RightDown\n\
    #   Combos: Use '+' to combine buttons (e.g., \"LS_RightUp+A+B\")\n\
    #\n\
    # Raw Input Devices (other gamepads, joysticks):\n\
    #   Format: DEVICE_VID_PID_SERIAL_Bx.x (with serial) or DEVICE_VID_PID_DEVxxxxxxxx_Bx.x (without serial)\n\
    #\n\
    # How to configure:\n\
    # 1. Connect your device (XInput controllers work automatically, others require activation)\n\
    # 2. First-time use for non-XInput devices: Activation dialog will appear when you press any button\n\
    #    - Follow instructions: press and release a single button to establish baseline\n\
    #    - Device activation data is saved automatically\n\
    # 3. Open settings dialog, click Capture button for trigger key\n\
    # 4. Press button(s) on your device (supports single button or combo keys)\n\
    # 5. Release all buttons to complete capture\n\
    #\n\
    # XInput Examples:\n\
    # [[mappings]]\n\
    # trigger_key = \"GAMEPAD_045E_A\"              # Xbox controller A button\n\
    # target_keys = [\"SPACE\"]                     # Press space\n\
    # turbo_enabled = true                        # Enable turbo mode\n\n\
    # [[mappings]]\n\
    # trigger_key = \"GAMEPAD_045E_LS_RightUp+A\"   # Left stick right-up + A button\n\
    # target_keys = [\"LCTRL+C\"]                   # Press Ctrl+C\n\
    # turbo_enabled = true                        # Enable turbo mode\n\n\
    # [[mappings]]\n\
    # trigger_key = \"GAMEPAD_045E_DPad_Up+B+X\"    # D-Pad up + B + X buttons\n\
    # target_keys = [\"F\"]                         # Auto-press F\n\
    # turbo_enabled = true                        # Enable turbo mode\n\n\
    # Raw Input Examples:\n\
    # [[mappings]]\n\
    # trigger_key = \"GAMEPAD_045E_0B05_ABC123_B2.0\"  # Raw Input format (with serial)\n\
    # target_keys = [\"SPACE\"]                        # Press space\n\
    # turbo_enabled = true                           # Enable turbo mode\n\n\
    # [[mappings]]\n\
    # trigger_key = \"JOYSTICK_046D_C21D_B1.0\"        # Logitech joystick button\n\
    # target_keys = [\"LBUTTON\"]                      # Left mouse click\n\
    # turbo_enabled = true                           # Enable turbo mode\n\n\
    # ─── Sequence Input/Output Examples (Fighting Game Combos) ───\n\
    # Sequence input triggers: Execute commands using input sequences\n\
    # Format: trigger_sequence = \"Key1,Key2,Key3,...\"\n\
    # - Keys are comma-separated (e.g., \"DOWN,RIGHT,A\")\n\
    # - Time window defines max time to complete the sequence (default: 500ms)\n\
    # - Supports keyboard keys, mouse buttons, mouse movements, and XInput stick/buttons\n\
    # - Smart transition tolerance: DOWN->LEFT matches DOWN->DOWNLEFT->LEFT\n\
    # - XInput diagonal bidirectional: DOWN_LEFT matches both DOWN->LEFT and LEFT->DOWN\n\
    #\n\
    # Sequence output targets: Send key sequences in order\n\
    # Format: target_keys = [\"Key1\", \"Key2\", \"Key3\"]\n\
    # - Set target_mode = 2 for sequential output\n\
    # - interval controls delay between keys\n\
    # - turbo_enabled = true: repeat entire sequence\n\
    # - turbo_enabled = false: execute once per trigger\n\
    #\n\
    # Example 1: Hadoken (Quarter Circle Forward + Punch)\n\
    # [[mappings]]\n\
    # trigger_sequence = \"LS_Down,LS_DownRight,LS_Right,A\"  # ↓↘→+A\n\
    # target_keys = [\"J\"]                                    # Press J\n\
    # sequence_window_ms = 500                               # Complete within 500ms\n\
    # turbo_enabled = true                                   # Repeat on hold\n\
    #\n\
    # Example 2: Shoryuken (Dragon Punch)\n\
    # [[mappings]]\n\
    # trigger_sequence = \"LS_Right,LS_Down,LS_DownRight,B\"   # →↓↘+B\n\
    # target_keys = [\"K\"]\n\
    # sequence_window_ms = 400\n\
    # turbo_enabled = false                                  # Single execution\n\
    #\n\
    # Example 3: Keyboard combo (e.g., \"WASD\" sequence)\n\
    # [[mappings]]\n\
    # trigger_sequence = \"W,A,S,D\"                           # Press W-A-S-D in order\n\
    # target_keys = [\"F\"]                                    # Output F\n\
    # sequence_window_ms = 800\n\
    # turbo_enabled = true\n\
    #\n\
    # Example 4: Mouse movement sequence (double tap direction)\n\
    # [[mappings]]\n\
    # trigger_sequence = \"MOUSE_LEFT,MOUSE_LEFT\"             # Double tap left\n\
    # target_keys = [\"LSHIFT\"]                               # Activate sprint\n\
    # sequence_window_ms = 300\n\
    # turbo_enabled = false\n\
    #\n\
    # Example 5: Sequence output (macro)\n\
    # [[mappings]]\n\
    # trigger_key = \"F5\"                                     # Single key trigger\n\
    # target_keys = [\"H\", \"E\", \"L\", \"L\", \"O\"]                # Type \"HELLO\"\n\
    # target_mode = 2                                        # Sequential mode\n\
    # interval = 50                                          # 50ms between keys\n\
    # turbo_enabled = false                                  # Single execution\n\
    #\n\
    # Example 6: Complex combo (multiple sticks + buttons)\n\
    # [[mappings]]\n\
    # trigger_sequence = \"LS_Left,LS_DownLeft,LS_Down,LS_DownRight,LS_Right,LB+RB\"\n\
    # target_keys = [\"SPACE\"]\n\
    # sequence_window_ms = 600\n\
    # turbo_enabled = false\n\n\
    # ─── HID Device Baselines (Auto-generated, Do Not Edit) ───\n\
    # This section is managed automatically by the application\n\
    # Device activation data for press/release detection\n\
    # Format: VID:PID:Serial or VID:PID (without serial)\n\
    # [[hid_baselines]]\n\
    # device_id = \"045E:028E:1234567\"\n\
    # baseline_data = [0, 255, 127, 255, 127, 0, 128, 0, 0, 0, 0]\n\n";

/// The name a language is written as in the configuration file.
pub open spec fn language_config_name(l: Language) -> Seq<char> {
    match l {
        Language::English => "English"@,
        Language::SimplifiedChinese => "SimplifiedChinese"@,
        Language::TraditionalChinese => "TraditionalChinese"@,
        Language::Japanese => "Japanese"@,
        Language::Korean => "Korean"@,
    }
}

/// What `format!("{:?}", v)` gives for a list of strings: the strings in
/// debug form (quoted and escaped), separated by `", "`, between square
/// brackets.
pub uninterp spec fn debug_list_text(v: Seq<String>) -> Seq<char>;

/// `format!("{:?}", v)` on a list of strings.
#[verifier::external_body]
fn debug_list(v: &Vec<String>) -> (r: String)
    ensures
        r@ == debug_list_text(v@),
{
    format!("{:?}", v)
}

/// The pieces of `f` over the items of `s`, one after the other.
pub open spec fn concat_map<A>(s: Seq<A>, f: spec_fn(A) -> Seq<char>) -> Seq<char>
    decreases s.len(),
{
    if s.len() == 0 {
        Seq::empty()
    } else {
        concat_map(s.drop_last(), f) + f(s.last())
    }
}

proof fn lemma_concat_map_step<A>(s: Seq<A>, f: spec_fn(A) -> Seq<char>, i: int)
    requires
        0 <= i < s.len(),
    ensures
        concat_map(s.take(i + 1), f) == concat_map(s.take(i), f) + f(s[i]),
{
    assert(s.take(i + 1).drop_last() =~= s.take(i));
}

/// Decimal numbers separated by `", "`.
pub open spec fn decimal_list(v: Seq<u8>) -> Seq<char> {
    join(v.map_values(|b: u8| decimal(b as nat)), ", "@)
}

/// A comment-laden header piece followed by a value.
pub open spec fn setting(head: Seq<char>, value: Seq<char>) -> Seq<char> {
    head + value
}

/// The general settings: tray icon, notifications, window placement,
/// theme and language.
pub open spec fn header_general(c: AppConfig) -> Seq<char> {
    setting(HEAD_TRAY@, bool_text(c.show_tray_icon)) + setting(
        HEAD_NOTIFICATIONS@,
        bool_text(c.show_notifications),
    ) + setting(HEAD_ON_TOP@, bool_text(c.always_on_top)) + setting(
        HEAD_DARK_MODE@,
        bool_text(c.dark_mode),
    ) + setting(HEAD_LANGUAGE@, language_config_name(c.language))
}

/// The performance settings: input timeout, interval, press duration and
/// worker count.
pub open spec fn header_timing(c: AppConfig) -> Seq<char> {
    setting(HEAD_INPUT_TIMEOUT@, decimal(c.input_timeout as nat)) + setting(
        HEAD_INTERVAL@,
        decimal(c.interval as nat),
    ) + setting(HEAD_EVENT_DURATION@, decimal(c.event_duration as nat)) + setting(
        HEAD_WORKER_COUNT@,
        decimal(c.worker_count as nat),
    )
}

/// The input device settings: XInput capture mode, deadzone, trigger
/// threshold and the three mouse movement distances.
pub open spec fn header_devices(c: AppConfig) -> Seq<char> {
    setting(HEAD_XINPUT_MODE@, c.xinput_capture_mode@) + setting(
        HEAD_DEADZONE@,
        signed_decimal(c.xinput_stick_deadzone as int),
    ) + setting(HEAD_TRIGGER_THRESHOLD@, decimal(c.xinput_trigger_threshold as nat)) + setting(
        HEAD_MOVE_MIN@,
        decimal(c.mouse_move_per_event_min_px as nat),
    ) + setting(HEAD_MOVE_TRIGGER@, decimal(c.mouse_move_min_trigger_px as nat)) + setting(
        HEAD_MOVE_REARM@,
        decimal(c.mouse_move_rearm_px as nat),
    )
}

/// The control settings and the process whitelist, followed by the
/// documentation of the mapping format.
pub open spec fn header_control(c: AppConfig) -> Seq<char> {
    setting(HEAD_SWITCH_KEY@, c.switch_key@) + setting(HEAD_FINALIZE_KEY@, c.sequence_finalize_key@)
        + setting(HEAD_WHITELIST@, debug_list_text(c.process_whitelist@)) + HEAD_TAIL@
}

/// The header: general, performance, input and control settings and the
/// process whitelist, each value in its place among the comments, then the
/// active preset when one is set. Everything in it comes before the first
/// table, so every key belongs to the top level of the file.
pub open spec fn header_text(c: AppConfig) -> Seq<char> {
    header_general(c) + header_timing(c) + header_devices(c) + header_control(c)
        + current_preset_section(c.current_preset@)
}

/// The target keys line of a mapping.
pub open spec fn target_keys_line(keys: Seq<Seq<char>>) -> Seq<char> {
    if keys.len() == 1 {
        "target_keys = [\""@ + keys[0] + "\"]         # Key(s) that get repeatedly sent\n"@
    } else if keys.len() > 1 {
        "target_keys = ["@ + join(quoted_all(keys), ", "@)
            + "]  # Multiple keys for simultaneous press\n"@
    } else {
        "target_keys = []             # Keys that get repeatedly sent\n"@
    }
}

/// The trigger sequence lines of a mapping, present when it has one.
pub open spec fn sequence_lines(m: KeyMapping) -> Seq<char> {
    match m.trigger_sequence {
        Some(seq) => "trigger_sequence = \""@ + seq@ + "\"    # Input sequence (e.g., \"A,S,D\")\n"@
            + "sequence_window_ms = "@ + decimal(m.sequence_window_ms as nat)
            + "       # Time window for sequence completion\n"@,
        None => Seq::empty(),
    }
}

/// The target mode line, written only for modes other than 0.
pub open spec fn target_mode_line(mode: u8) -> Seq<char> {
    if mode != 0 {
        "target_mode = "@ + decimal(mode as nat) + "              # 0=Single, 1=Multi, 2=Sequence\n"@
    } else {
        Seq::empty()
    }
}

/// The interval and duration override lines, each present when set.
pub open spec fn override_lines(m: KeyMapping) -> Seq<char> {
    (match m.interval {
        Some(v) => "interval = "@ + decimal(v as nat) + "                # Override global interval\n"@,
        None => Seq::empty(),
    }) + (match m.event_duration {
        Some(v) => "event_duration = "@ + decimal(v as nat)
            + "          # Override global press duration\n"@,
        None => Seq::empty(),
    })
}

/// The note line, present when the note is not empty.
pub open spec fn note_line(note: Seq<char>) -> Seq<char> {
    if note.len() != 0 {
        "note = \""@ + note + "\"             # User note\n"@
    } else {
        Seq::empty()
    }
}

/// The rule property lines: held indices and appended keys, each present
/// when set and not empty.
pub open spec fn rule_lines(m: KeyMapping) -> Seq<char> {
    (match m.hold_indices {
        Some(h) => if h@.len() != 0 {
            "hold_indices = ["@ + decimal_list(h@)
                + "]          # Indices of target_keys to stay held after play\n"@
        } else {
            Seq::empty()
        },
        None => Seq::empty(),
    }) + (match m.append_keys {
        Some(a) => if a@.len() != 0 {
            "append_keys = ["@ + join(quoted_all(texts(a@)), ", "@)
                + "]  # Extra keys pressed and held after play\n"@
        } else {
            Seq::empty()
        },
        None => Seq::empty(),
    })
}

/// The table header and trigger key line of a mapping.
pub open spec fn mapping_head(m: KeyMapping) -> Seq<char> {
    "[[mappings]]\n"@ + "trigger_key = \""@ + m.trigger_key@ + "\"           # Physical key you press\n"@
}

/// The move speed and turbo lines of a mapping.
pub open spec fn speed_turbo_lines(m: KeyMapping) -> Seq<char> {
    "move_speed = "@ + signed_decimal(m.move_speed as int)
        + "              # Speed (pixels for movement, wheel delta for scroll)\n"@
        + "turbo_enabled = "@ + bool_text(m.turbo_enabled)
        + "        # Enable turbo mode (true = auto-repeat, false = follow trigger press/release)\n"@
}

/// One `[[mappings]]` table.
pub open spec fn mapping_text(m: KeyMapping) -> Seq<char> {
    mapping_head(m) + sequence_lines(m) + target_keys_line(texts(m.target_keys@)) + target_mode_line(
        m.target_mode,
    ) + override_lines(m) + speed_turbo_lines(m) + note_line(m.note@) + rule_lines(m) + "\n"@
}

/// The mappings: an empty array when there are none, else one table each.
pub open spec fn mappings_section(ms: Seq<KeyMapping>) -> Seq<char> {
    if ms.len() == 0 {
        "mappings = []\n"@
    } else {
        concat_map(ms, |m: KeyMapping| mapping_text(m))
    }
}

/// The target keys line of a preset mapping; absent when there are none.
pub open spec fn preset_target_keys_line(keys: Seq<Seq<char>>) -> Seq<char> {
    if keys.len() == 1 {
        "target_keys = [\""@ + keys[0] + "\"]\n"@
    } else if keys.len() > 1 {
        "target_keys = ["@ + join(quoted_all(keys), ", "@) + "]\n"@
    } else {
        Seq::empty()
    }
}

/// The interval and duration lines of a preset mapping, each present
/// when set.
pub open spec fn preset_override_lines(m: KeyMapping) -> Seq<char> {
    (match m.interval {
        Some(v) => "interval = "@ + decimal(v as nat) + "\n"@,
        None => Seq::empty(),
    }) + (match m.event_duration {
        Some(v) => "event_duration = "@ + decimal(v as nat) + "\n"@,
        None => Seq::empty(),
    })
}

/// The move speed, turbo and note lines of a preset mapping.
pub open spec fn preset_tail_lines(m: KeyMapping) -> Seq<char> {
    "move_speed = "@ + signed_decimal(m.move_speed as int) + "\n"@ + "turbo_enabled = "@ + bool_text(
        m.turbo_enabled,
    ) + "\n"@ + (if m.note@.len() != 0 {
        "note = \""@ + m.note@ + "\"\n"@
    } else {
        Seq::empty()
    })
}

/// The trigger sequence lines of a preset mapping, present when it has one.
pub open spec fn preset_sequence_lines(m: KeyMapping) -> Seq<char> {
    match m.trigger_sequence {
        Some(seq) => "trigger_sequence = \""@ + seq@ + "\"\n"@ + "sequence_window_ms = "@ + decimal(
            m.sequence_window_ms as nat,
        ) + "\n"@,
        None => Seq::empty(),
    }
}

/// The target mode line of a preset mapping, written only for modes other
/// than 0.
pub open spec fn preset_target_mode_line(mode: u8) -> Seq<char> {
    if mode != 0 {
        "target_mode = "@ + decimal(mode as nat) + "\n"@
    } else {
        Seq::empty()
    }
}

/// The rule property lines of a preset mapping: held indices and appended
/// keys, each present when set and not empty.
pub open spec fn preset_rule_lines(m: KeyMapping) -> Seq<char> {
    (match m.hold_indices {
        Some(h) => if h@.len() != 0 {
            "hold_indices = ["@ + decimal_list(h@) + "]\n"@
        } else {
            Seq::empty()
        },
        None => Seq::empty(),
    }) + (match m.append_keys {
        Some(a) => if a@.len() != 0 {
            "append_keys = ["@ + join(quoted_all(texts(a@)), ", "@) + "]\n"@
        } else {
            Seq::empty()
        },
        None => Seq::empty(),
    })
}

/// One `[[presets.mappings]]` table: the same optional lines as a mapping's
/// table, without the comments.
pub open spec fn preset_mapping_text(m: KeyMapping) -> Seq<char> {
    "[[presets.mappings]]\ntrigger_key = \""@ + m.trigger_key@ + "\"\n"@ + preset_sequence_lines(m)
        + preset_target_keys_line(texts(m.target_keys@)) + preset_target_mode_line(m.target_mode)
        + preset_override_lines(m) + preset_tail_lines(m) + preset_rule_lines(m)
}

/// One `[[presets]]` table with its mappings.
pub open spec fn preset_text(p: Preset) -> Seq<char> {
    "[[presets]]\n"@ + "name = \""@ + p.name@ + "\"\n"@ + (if p.mappings@.len() == 0 {
        "mappings = []\n"@
    } else {
        Seq::empty()
    }) + concat_map(p.mappings@, |m: KeyMapping| preset_mapping_text(m)) + "\n"@
}

/// The presets, introduced by a comment; nothing when there are none.
pub open spec fn presets_section(ps: Seq<Preset>) -> Seq<char> {
    if ps.len() == 0 {
        Seq::empty()
    } else {
        "# ─── Presets ───\n"@ + "# Named mapping presets for quick switching\n"@ + concat_map(
            ps,
            |p: Preset| preset_text(p),
        )
    }
}

/// The active preset, when one is set.
pub open spec fn current_preset_section(name: Seq<char>) -> Seq<char> {
    if name.len() != 0 {
        "# ─── Active Preset ───\n"@ + "current_preset = \""@ + name + "\"\n\n"@
    } else {
        Seq::empty()
    }
}

/// One `[[hid_baselines]]` table.
pub open spec fn baseline_text(b: HidDeviceBaseline) -> Seq<char> {
    "[[hid_baselines]]\n"@ + "device_id = \""@ + b.device_id@ + "\"\n"@ + "baseline_data = ["@
        + decimal_list(b.baseline_data@) + "]\n"@ + "\n"@
}

/// The device baselines, introduced by comments; nothing when there are
/// none.
pub open spec fn baselines_section(bs: Seq<HidDeviceBaseline>) -> Seq<char> {
    if bs.len() == 0 {
        Seq::empty()
    } else {
        "# ─── HID Device Baselines (Auto-managed) ───\n"@
            + "# Device activation data for press/release detection\n"@
            + "# Format: VID:PID:Serial or VID:PID (without serial)\n"@ + concat_map(
            bs,
            |b: HidDeviceBaseline| baseline_text(b),
        )
    }
}

/// The value written for a preference.
pub open spec fn preference_text(p: DeviceApiPreference) -> Seq<char> {
    match p {
        DeviceApiPreference::Auto => "\"Auto\""@,
        DeviceApiPreference::XInput => "\"XInput\""@,
        DeviceApiPreference::RawInput => "\"RawInput\""@,
    }
}

/// One entry of the preference table.
pub open spec fn preference_entry_text(e: (Seq<char>, DeviceApiPreference)) -> Seq<char> {
    "\""@ + e.0 + "\" = "@ + preference_text(e.1) + "\n"@
}

/// The device API preferences as a table; nothing when there are none.
pub open spec fn preferences_section(es: ApiPreferenceEntries) -> Seq<char> {
    if es.len() == 0 {
        Seq::empty()
    } else {
        "# ─── Device API Preferences (Auto-managed) ───\n"@
            + "# Preferred input API for each device (VID:PID format)\n"@
            + "# Options: \"Auto\" (default), \"XInput\", \"RawInput\"\n"@
            + "# Configure via Device Manager GUI window\n"@ + "[device_api_preferences]\n"@
            + concat_map(es, |e: (Seq<char>, DeviceApiPreference)| preference_entry_text(e))
            + "\n"@
    }
}

/// The whole configuration file.
pub open spec fn config_text(c: AppConfig) -> Seq<char> {
    header_text(c) + mappings_section(c.mappings@) + presets_section(c.presets@)
        + baselines_section(c.hid_baselines@) + preferences_section(c.device_api_preferences@)
}

/// `t` occurs in `s` as one contiguous piece.
pub open spec fn contains_piece(s: Seq<char>, t: Seq<char>) -> bool {
    exists|a: int| 0 <= a && a + t.len() <= s.len() && #[trigger] s.subrange(a, a + t.len()) == t
}

/// A `target_keys` line that lists `keys` as a TOML array of strings, in
/// order.
pub open spec fn key_array_line(keys: Seq<Seq<char>>) -> Seq<char> {
    "target_keys = ["@ + join(quoted_all(keys), ", "@) + "]\n"@
}

proof fn lemma_piece_self(t: Seq<char>)
    ensures
        contains_piece(t, t),
{
    assert(t.subrange(0int, 0int + t.len()) =~= t);
}

proof fn lemma_piece_prefix(x: Seq<char>, y: Seq<char>, t: Seq<char>)
    requires
        contains_piece(y, t),
    ensures
        contains_piece(x + y, t),
{
    let a = choose|a: int| 0 <= a && a + t.len() <= y.len() && #[trigger] y.subrange(a, a + t.len()) == t;
    let b = a + x.len();
    assert((x + y).subrange(b, b + t.len()) =~= y.subrange(a, a + t.len()));
}

proof fn lemma_piece_suffix(y: Seq<char>, z: Seq<char>, t: Seq<char>)
    requires
        contains_piece(y, t),
    ensures
        contains_piece(y + z, t),
{
    let a = choose|a: int| 0 <= a && a + t.len() <= y.len() && #[trigger] y.subrange(a, a + t.len()) == t;
    assert((y + z).subrange(a, a + t.len()) =~= y.subrange(a, a + t.len()));
}

proof fn lemma_piece_widen(x: Seq<char>, y: Seq<char>, z: Seq<char>, t: Seq<char>)
    requires
        contains_piece(y, t),
    ensures
        contains_piece(x + y + z, t),
{
    let a = choose|a: int| 0 <= a && a + t.len() <= y.len() && #[trigger] y.subrange(a, a + t.len()) == t;
    let b = a + x.len();
    assert((x + y + z).subrange(b, b + t.len()) =~= y.subrange(a, a + t.len()));
}

proof fn lemma_piece_trans(s: Seq<char>, u: Seq<char>, t: Seq<char>)
    requires
        contains_piece(s, u),
        contains_piece(u, t),
    ensures
        contains_piece(s, t),
{
    let a = choose|a: int| 0 <= a && a + u.len() <= s.len() && #[trigger] s.subrange(a, a + u.len()) == u;
    let b = choose|b: int| 0 <= b && b + t.len() <= u.len() && #[trigger] u.subrange(b, b + t.len()) == t;
    assert(s.subrange(a + b, a + b + t.len()) =~= u.subrange(b, b + t.len()));
}

proof fn lemma_piece_concat_map<A>(s: Seq<A>, f: spec_fn(A) -> Seq<char>, j: int)
    requires
        0 <= j < s.len(),
    ensures
        contains_piece(concat_map(s, f), f(s[j])),
    decreases s.len(),
{
    let t = s.drop_last();
    if j == s.len() - 1 {
        lemma_piece_self(f(s.last()));
        lemma_piece_widen(concat_map(t, f), f(s.last()), Seq::empty(), f(s[j]));
        assert(concat_map(t, f) + f(s.last()) + Seq::<char>::empty() =~= concat_map(s, f));
    } else {
        lemma_piece_concat_map(t, f, j);
        assert(t[j] == s[j]);
        lemma_piece_widen(Seq::empty(), concat_map(t, f), f(s.last()), f(s[j]));
        assert(Seq::<char>::empty() + concat_map(t, f) + f(s.last()) =~= concat_map(s, f));
    }
}

/// A preset mapping's table lists all its target keys: when it has any,
/// the table holds the line `target_keys = ["k1", "k2", ...]` with every
/// key in order, a single key as `target_keys = ["k"]`.
pub proof fn lemma_preset_mapping_lists_target_keys(m: KeyMapping)
    requires
        texts(m.target_keys@).len() > 0,
    ensures
        contains_piece(preset_mapping_text(m), key_array_line(texts(m.target_keys@))),
{
    let keys = texts(m.target_keys@);
    let line = preset_target_keys_line(keys);
    if keys.len() == 1 {
        reveal_strlit("target_keys = [\"");
        reveal_strlit("\"]\n");
        reveal_strlit("target_keys = [");
        reveal_strlit("]\n");
        assert(join(quoted_all(keys), ", "@) == crate::text::quoted(keys[0]));
        assert(line =~= key_array_line(keys));
    }
    assert(line == key_array_line(keys));
    lemma_piece_self(line);
    let x = "[[presets.mappings]]\ntrigger_key = \""@ + m.trigger_key@ + "\"\n"@ + preset_sequence_lines(m);
    let z = preset_target_mode_line(m.target_mode) + preset_override_lines(m) + preset_tail_lines(m)
        + preset_rule_lines(m);
    lemma_piece_widen(x, line, z, line);
    assert(x + line + z =~= preset_mapping_text(m));
}

/// Every mapping of every preset is written into the configuration file as
/// a `[[presets.mappings]]` table of its own; with
/// [`lemma_preset_mapping_lists_target_keys`], the file lists each preset
/// mapping's target keys.
pub proof fn lemma_preset_mappings_written(c: AppConfig, i: int, j: int)
    requires
        0 <= i < c.presets@.len(),
        0 <= j < c.presets@[i].mappings@.len(),
    ensures
        contains_piece(config_text(c), preset_mapping_text(c.presets@[i].mappings@[j])),
        texts(c.presets@[i].mappings@[j].target_keys@).len() > 0 ==> contains_piece(
            config_text(c),
            key_array_line(texts(c.presets@[i].mappings@[j].target_keys@)),
        ),
{
    let p = c.presets@[i];
    let m = p.mappings@[j];
    let fm = |m: KeyMapping| preset_mapping_text(m);
    let fp = |p: Preset| preset_text(p);
    lemma_piece_concat_map(p.mappings@, fm, j);
    let px = "[[presets]]\n"@ + "name = \""@ + p.name@ + "\"\n"@ + (if p.mappings@.len() == 0 {
        "mappings = []\n"@
    } else {
        Seq::empty()
    });
    lemma_piece_prefix(px, concat_map(p.mappings@, fm), preset_mapping_text(m));
    lemma_piece_suffix(px + concat_map(p.mappings@, fm), "\n"@, preset_mapping_text(m));
    lemma_piece_concat_map(c.presets@, fp, i);
    lemma_piece_trans(concat_map(c.presets@, fp), preset_text(p), preset_mapping_text(m));
    let sx = "# ─── Presets ───\n"@ + "# Named mapping presets for quick switching\n"@;
    lemma_piece_prefix(sx, concat_map(c.presets@, fp), preset_mapping_text(m));
    lemma_piece_prefix(header_text(c) + mappings_section(c.mappings@), presets_section(c.presets@), preset_mapping_text(m));
    lemma_piece_suffix(
        header_text(c) + mappings_section(c.mappings@) + presets_section(c.presets@),
        baselines_section(c.hid_baselines@),
        preset_mapping_text(m),
    );
    lemma_piece_suffix(
        header_text(c) + mappings_section(c.mappings@) + presets_section(c.presets@)
            + baselines_section(c.hid_baselines@),
        preferences_section(c.device_api_preferences@),
        preset_mapping_text(m),
    );
    if texts(m.target_keys@).len() > 0 {
        lemma_preset_mapping_lists_target_keys(m);
        lemma_piece_trans(
            config_text(c),
            preset_mapping_text(m),
            key_array_line(texts(m.target_keys@)),
        );
    }
}

fn push_language(out: &mut String, l: Language)
    ensures
        final(out)@ == old(out)@ + language_config_name(l),
{
    match l {
        Language::English => push_str(out, "English"),
        Language::SimplifiedChinese => push_str(out, "SimplifiedChinese"),
        Language::TraditionalChinese => push_str(out, "TraditionalChinese"),
        Language::Japanese => push_str(out, "Japanese"),
        Language::Korean => push_str(out, "Korean"),
    }
}

fn push_decimal_list(out: &mut String, v: &[u8])
    ensures
        final(out)@ == old(out)@ + decimal_list(v@),
{
    let ghost parts = v@.map_values(|b: u8| decimal(b as nat));
    let ghost start = out@;
    let mut i: usize = 0;
    while i < v.len()
        invariant
            i <= v@.len(),
            parts == v@.map_values(|b: u8| decimal(b as nat)),
            out@ == start + join(parts.take(i as int), ", "@),
        decreases v.len() - i,
    {
        if i > 0 {
            push_str(out, ", ");
        }
        push_decimal(out, v[i] as u64);
        proof {
            assert(parts.take(i + 1).drop_last() =~= parts.take(i as int));
            assert(out@ =~= start + join(parts.take(i + 1), ", "@));
        }
        i = i + 1;
    }
    assert(parts.take(v@.len() as int) =~= parts);
}

#[verifier::spinoff_prover]
#[verifier::rlimit(40)]
fn push_general(out: &mut String, c: &AppConfig)
    ensures
        final(out)@ == old(out)@ + header_general(*c),
{
    let ghost start = out@;
    push_str(out, HEAD_TRAY);
    push_bool(out, c.show_tray_icon);
    push_str(out, HEAD_NOTIFICATIONS);
    push_bool(out, c.show_notifications);
    push_str(out, HEAD_ON_TOP);
    push_bool(out, c.always_on_top);
    push_str(out, HEAD_DARK_MODE);
    push_bool(out, c.dark_mode);
    let ghost middle = out@;
    assert(middle =~= start + (setting(HEAD_TRAY@, bool_text(c.show_tray_icon)) + setting(
        HEAD_NOTIFICATIONS@,
        bool_text(c.show_notifications),
    ) + setting(HEAD_ON_TOP@, bool_text(c.always_on_top)) + setting(
        HEAD_DARK_MODE@,
        bool_text(c.dark_mode),
    )));
    push_str(out, HEAD_LANGUAGE);
    push_language(out, c.language);
    assert(out@ =~= middle + setting(HEAD_LANGUAGE@, language_config_name(c.language)));
    assert(out@ =~= start + header_general(*c));
}

fn push_timing(out: &mut String, c: &AppConfig)
    ensures
        final(out)@ == old(out)@ + header_timing(*c),
{
    let ghost start = out@;
    push_str(out, HEAD_INPUT_TIMEOUT);
    push_decimal(out, c.input_timeout);
    push_str(out, HEAD_INTERVAL);
    push_decimal(out, c.interval);
    push_str(out, HEAD_EVENT_DURATION);
    push_decimal(out, c.event_duration);
    push_str(out, HEAD_WORKER_COUNT);
    push_decimal(out, c.worker_count as u64);
    assert(out@ =~= start + header_timing(*c));
}

fn push_devices(out: &mut String, c: &AppConfig)
    ensures
        final(out)@ == old(out)@ + header_devices(*c),
{
    let ghost start = out@;
    push_str(out, HEAD_XINPUT_MODE);
    push_str(out, c.xinput_capture_mode.as_str());
    push_str(out, HEAD_DEADZONE);
    push_signed_decimal(out, c.xinput_stick_deadzone as i64);
    push_str(out, HEAD_TRIGGER_THRESHOLD);
    push_decimal(out, c.xinput_trigger_threshold as u64);
    push_str(out, HEAD_MOVE_MIN);
    push_decimal(out, c.mouse_move_per_event_min_px as u64);
    push_str(out, HEAD_MOVE_TRIGGER);
    push_decimal(out, c.mouse_move_min_trigger_px as u64);
    push_str(out, HEAD_MOVE_REARM);
    push_decimal(out, c.mouse_move_rearm_px as u64);
    assert(out@ =~= start + header_devices(*c));
}

fn push_control(out: &mut String, c: &AppConfig)
    ensures
        final(out)@ == old(out)@ + header_control(*c),
{
    let ghost start = out@;
    push_str(out, HEAD_SWITCH_KEY);
    push_str(out, c.switch_key.as_str());
    push_str(out, HEAD_FINALIZE_KEY);
    push_str(out, c.sequence_finalize_key.as_str());
    push_str(out, HEAD_WHITELIST);
    let list = debug_list(&c.process_whitelist);
    push_str(out, list.as_str());
    push_str(out, HEAD_TAIL);
    assert(out@ =~= start + header_control(*c));
}

fn push_header(out: &mut String, c: &AppConfig)
    ensures
        final(out)@ == old(out)@ + header_text(*c),
{
    let ghost start = out@;
    push_general(out, c);
    push_timing(out, c);
    push_devices(out, c);
    push_control(out, c);
    push_current_preset(out, &c.current_preset);
    assert(out@ =~= start + header_text(*c));
}

fn push_target_keys_line(out: &mut String, keys: &KeyList)
    ensures
        final(out)@ == old(out)@ + target_keys_line(texts(keys@)),
{
    let ghost start = out@;
    let n = keys.len();
    let items = keys.as_slice();
    if n == 1 {
        push_str(out, "target_keys = [\"");
        push_str(out, items[0].as_str());
        push_str(out, "\"]         # Key(s) that get repeatedly sent\n");
    } else if n > 1 {
        push_str(out, "target_keys = [");
        push_joined(out, items, ", ", true);
        push_str(out, "]  # Multiple keys for simultaneous press\n");
    } else {
        push_str(out, "target_keys = []             # Keys that get repeatedly sent\n");
    }
    assert(out@ =~= start + target_keys_line(texts(keys@)));
}

fn push_sequence_lines(out: &mut String, m: &KeyMapping)
    ensures
        final(out)@ == old(out)@ + sequence_lines(*m),
{
    let ghost start = out@;
    match &m.trigger_sequence {
        Some(seq) => {
            push_str(out, "trigger_sequence = \"");
            push_str(out, seq.as_str());
            push_str(out, "\"    # Input sequence (e.g., \"A,S,D\")\n");
            push_str(out, "sequence_window_ms = ");
            push_decimal(out, m.sequence_window_ms);
            push_str(out, "       # Time window for sequence completion\n");
        },
        None => {},
    }
    assert(out@ =~= start + sequence_lines(*m));
}

fn push_override_lines(out: &mut String, m: &KeyMapping)
    ensures
        final(out)@ == old(out)@ + override_lines(*m),
{
    let ghost start = out@;
    if let Some(v) = m.interval {
        push_str(out, "interval = ");
        push_decimal(out, v);
        push_str(out, "                # Override global interval\n");
    }
    let ghost middle = out@;
    if let Some(v) = m.event_duration {
        push_str(out, "event_duration = ");
        push_decimal(out, v);
        push_str(out, "          # Override global press duration\n");
    }
    assert(out@ =~= start + override_lines(*m));
}

fn push_rule_lines(out: &mut String, m: &KeyMapping)
    ensures
        final(out)@ == old(out)@ + rule_lines(*m),
{
    let ghost start = out@;
    if let Some(holds) = &m.hold_indices {
        if holds.len() != 0 {
            push_str(out, "hold_indices = [");
            push_decimal_list(out, holds.as_slice());
            push_str(out, "]          # Indices of target_keys to stay held after play\n");
        }
    }
    if let Some(appends) = &m.append_keys {
        if appends.len() != 0 {
            push_str(out, "append_keys = [");
            push_joined(out, appends.as_slice(), ", ", true);
            push_str(out, "]  # Extra keys pressed and held after play\n");
        }
    }
    assert(out@ =~= start + rule_lines(*m));
}

fn push_mapping_head(out: &mut String, m: &KeyMapping)
    ensures
        final(out)@ == old(out)@ + mapping_head(*m),
{
    let ghost start = out@;
    push_str(out, "[[mappings]]\n");
    push_str(out, "trigger_key = \"");
    push_str(out, m.trigger_key.as_str());
    push_str(out, "\"           # Physical key you press\n");
    assert(out@ =~= start + mapping_head(*m));
}

fn push_target_mode_line(out: &mut String, mode: u8)
    ensures
        final(out)@ == old(out)@ + target_mode_line(mode),
{
    let ghost start = out@;
    if mode != 0 {
        push_str(out, "target_mode = ");
        push_decimal(out, mode as u64);
        push_str(out, "              # 0=Single, 1=Multi, 2=Sequence\n");
    }
    assert(out@ =~= start + target_mode_line(mode));
}

fn push_speed_turbo_lines(out: &mut String, m: &KeyMapping)
    ensures
        final(out)@ == old(out)@ + speed_turbo_lines(*m),
{
    let ghost start = out@;
    push_str(out, "move_speed = ");
    push_signed_decimal(out, m.move_speed as i64);
    push_str(out, "              # Speed (pixels for movement, wheel delta for scroll)\n");
    push_str(out, "turbo_enabled = ");
    push_bool(out, m.turbo_enabled);
    push_str(
        out,
        "        # Enable turbo mode (true = auto-repeat, false = follow trigger press/release)\n",
    );
    assert(out@ =~= start + speed_turbo_lines(*m));
}

fn push_note_line(out: &mut String, note: &String)
    ensures
        final(out)@ == old(out)@ + note_line(note@),
{
    let ghost start = out@;
    if note.as_str().unicode_len() != 0 {
        push_str(out, "note = \"");
        push_str(out, note.as_str());
        push_str(out, "\"             # User note\n");
    }
    assert(out@ =~= start + note_line(note@));
}

#[verifier::spinoff_prover]
#[verifier::rlimit(40)]
fn push_mapping(out: &mut String, m: &KeyMapping)
    ensures
        final(out)@ == old(out)@ + mapping_text(*m),
{
    let ghost start = out@;
    push_mapping_head(out, m);
    push_sequence_lines(out, m);
    push_target_keys_line(out, &m.target_keys);
    push_target_mode_line(out, m.target_mode);
    push_override_lines(out, m);
    push_speed_turbo_lines(out, m);
    push_note_line(out, &m.note);
    push_rule_lines(out, m);
    push_str(out, "\n");
    assert(out@ =~= start + mapping_text(*m));
}

fn push_mappings(out: &mut String, ms: &Vec<KeyMapping>)
    ensures
        final(out)@ == old(out)@ + mappings_section(ms@),
{
    let ghost start = out@;
    let ghost f = |m: KeyMapping| mapping_text(m);
    if ms.len() == 0 {
        push_str(out, "mappings = []\n");
        return;
    }
    let mut i: usize = 0;
    while i < ms.len()
        invariant
            i <= ms@.len(),
            f == (|m: KeyMapping| mapping_text(m)),
            out@ == start + concat_map(ms@.take(i as int), f),
        decreases ms.len() - i,
    {
        push_mapping(out, &ms[i]);
        proof {
            lemma_concat_map_step(ms@, f, i as int);
            assert(out@ =~= start + concat_map(ms@.take(i + 1), f));
        }
        i = i + 1;
    }
    assert(ms@.take(ms@.len() as int) =~= ms@);
}

fn push_preset_target_keys_line(out: &mut String, keys: &KeyList)
    ensures
        final(out)@ == old(out)@ + preset_target_keys_line(texts(keys@)),
{
    let ghost start = out@;
    let n = keys.len();
    let items = keys.as_slice();
    if n == 1 {
        push_str(out, "target_keys = [\"");
        push_str(out, items[0].as_str());
        push_str(out, "\"]\n");
    } else if n > 1 {
        push_str(out, "target_keys = [");
        push_joined(out, items, ", ", true);
        push_str(out, "]\n");
    }
    assert(out@ =~= start + preset_target_keys_line(texts(keys@)));
}

fn push_preset_override_lines(out: &mut String, m: &KeyMapping)
    ensures
        final(out)@ == old(out)@ + preset_override_lines(*m),
{
    let ghost start = out@;
    if let Some(v) = m.interval {
        push_str(out, "interval = ");
        push_decimal(out, v);
        push_str(out, "\n");
    }
    if let Some(v) = m.event_duration {
        push_str(out, "event_duration = ");
        push_decimal(out, v);
        push_str(out, "\n");
    }
    assert(out@ =~= start + preset_override_lines(*m));
}

fn push_preset_tail_lines(out: &mut String, m: &KeyMapping)
    ensures
        final(out)@ == old(out)@ + preset_tail_lines(*m),
{
    let ghost start = out@;
    push_str(out, "move_speed = ");
    push_signed_decimal(out, m.move_speed as i64);
    push_str(out, "\n");
    push_str(out, "turbo_enabled = ");
    push_bool(out, m.turbo_enabled);
    push_str(out, "\n");
    if m.note.as_str().unicode_len() != 0 {
        push_str(out, "note = \"");
        push_str(out, m.note.as_str());
        push_str(out, "\"\n");
    }
    assert(out@ =~= start + preset_tail_lines(*m));
}

fn push_preset_sequence_lines(out: &mut String, m: &KeyMapping)
    ensures
        final(out)@ == old(out)@ + preset_sequence_lines(*m),
{
    let ghost start = out@;
    match &m.trigger_sequence {
        Some(seq) => {
            push_str(out, "trigger_sequence = \"");
            push_str(out, seq.as_str());
            push_str(out, "\"\n");
            push_str(out, "sequence_window_ms = ");
            push_decimal(out, m.sequence_window_ms);
            push_str(out, "\n");
        },
        None => {},
    }
    assert(out@ =~= start + preset_sequence_lines(*m));
}

fn push_preset_target_mode_line(out: &mut String, mode: u8)
    ensures
        final(out)@ == old(out)@ + preset_target_mode_line(mode),
{
    let ghost start = out@;
    if mode != 0 {
        push_str(out, "target_mode = ");
        push_decimal(out, mode as u64);
        push_str(out, "\n");
    }
    assert(out@ =~= start + preset_target_mode_line(mode));
}

fn push_preset_rule_lines(out: &mut String, m: &KeyMapping)
    ensures
        final(out)@ == old(out)@ + preset_rule_lines(*m),
{
    let ghost start = out@;
    if let Some(holds) = &m.hold_indices {
        if holds.len() != 0 {
            push_str(out, "hold_indices = [");
            push_decimal_list(out, holds.as_slice());
            push_str(out, "]\n");
        }
    }
    if let Some(appends) = &m.append_keys {
        if appends.len() != 0 {
            push_str(out, "append_keys = [");
            push_joined(out, appends.as_slice(), ", ", true);
            push_str(out, "]\n");
        }
    }
    assert(out@ =~= start + preset_rule_lines(*m));
}

#[verifier::spinoff_prover]
#[verifier::rlimit(40)]
fn push_preset_mapping(out: &mut String, m: &KeyMapping)
    ensures
        final(out)@ == old(out)@ + preset_mapping_text(*m),
{
    let ghost start = out@;
    push_str(out, "[[presets.mappings]]\ntrigger_key = \"");
    push_str(out, m.trigger_key.as_str());
    push_str(out, "\"\n");
    push_preset_sequence_lines(out, m);
    push_preset_target_keys_line(out, &m.target_keys);
    push_preset_target_mode_line(out, m.target_mode);
    push_preset_override_lines(out, m);
    push_preset_tail_lines(out, m);
    push_preset_rule_lines(out, m);
    assert(out@ =~= start + preset_mapping_text(*m));
}

fn push_preset(out: &mut String, p: &Preset)
    ensures
        final(out)@ == old(out)@ + preset_text(*p),
{
    let ghost start = out@;
    let ghost f = |m: KeyMapping| preset_mapping_text(m);
    push_str(out, "[[presets]]\n");
    push_str(out, "name = \"");
    push_str(out, p.name.as_str());
    push_str(out, "\"\n");
    if p.mappings.len() == 0 {
        push_str(out, "mappings = []\n");
    }
    let ghost before = out@;
    let mut i: usize = 0;
    while i < p.mappings.len()
        invariant
            i <= p.mappings@.len(),
            f == (|m: KeyMapping| preset_mapping_text(m)),
            out@ == before + concat_map(p.mappings@.take(i as int), f),
        decreases p.mappings.len() - i,
    {
        push_preset_mapping(out, &p.mappings[i]);
        proof {
            lemma_concat_map_step(p.mappings@, f, i as int);
            assert(out@ =~= before + concat_map(p.mappings@.take(i + 1), f));
        }
        i = i + 1;
    }
    assert(p.mappings@.take(p.mappings@.len() as int) =~= p.mappings@);
    push_str(out, "\n");
    assert(out@ =~= start + preset_text(*p));
}

fn push_presets(out: &mut String, ps: &Vec<Preset>)
    ensures
        final(out)@ == old(out)@ + presets_section(ps@),
{
    let ghost start = out@;
    let ghost f = |p: Preset| preset_text(p);
    if ps.len() == 0 {
        assert(out@ =~= start + presets_section(ps@));
        return;
    }
    push_str(out, "# ─── Presets ───\n");
    push_str(out, "# Named mapping presets for quick switching\n");
    let ghost before = out@;
    let mut i: usize = 0;
    while i < ps.len()
        invariant
            i <= ps@.len(),
            f == (|p: Preset| preset_text(p)),
            out@ == before + concat_map(ps@.take(i as int), f),
        decreases ps.len() - i,
    {
        push_preset(out, &ps[i]);
        proof {
            lemma_concat_map_step(ps@, f, i as int);
            assert(out@ =~= before + concat_map(ps@.take(i + 1), f));
        }
        i = i + 1;
    }
    assert(ps@.take(ps@.len() as int) =~= ps@);
    assert(out@ =~= start + presets_section(ps@));
}

fn push_current_preset(out: &mut String, name: &String)
    ensures
        final(out)@ == old(out)@ + current_preset_section(name@),
{
    let ghost start = out@;
    if name.as_str().unicode_len() != 0 {
        push_str(out, "# ─── Active Preset ───\n");
        push_str(out, "current_preset = \"");
        push_str(out, name.as_str());
        push_str(out, "\"\n\n");
    }
    assert(out@ =~= start + current_preset_section(name@));
}

fn push_baseline(out: &mut String, b: &HidDeviceBaseline)
    ensures
        final(out)@ == old(out)@ + baseline_text(*b),
{
    let ghost start = out@;
    push_str(out, "[[hid_baselines]]\n");
    push_str(out, "device_id = \"");
    push_str(out, b.device_id.as_str());
    push_str(out, "\"\n");
    push_str(out, "baseline_data = [");
    push_decimal_list(out, b.baseline_data.as_slice());
    push_str(out, "]\n");
    push_str(out, "\n");
    assert(out@ =~= start + baseline_text(*b));
}

fn push_baselines(out: &mut String, bs: &Vec<HidDeviceBaseline>)
    ensures
        final(out)@ == old(out)@ + baselines_section(bs@),
{
    let ghost start = out@;
    let ghost f = |b: HidDeviceBaseline| baseline_text(b);
    if bs.len() == 0 {
        assert(out@ =~= start + baselines_section(bs@));
        return;
    }
    push_str(out, "# ─── HID Device Baselines (Auto-managed) ───\n");
    push_str(out, "# Device activation data for press/release detection\n");
    push_str(out, "# Format: VID:PID:Serial or VID:PID (without serial)\n");
    let ghost before = out@;
    let mut i: usize = 0;
    while i < bs.len()
        invariant
            i <= bs@.len(),
            f == (|b: HidDeviceBaseline| baseline_text(b)),
            out@ == before + concat_map(bs@.take(i as int), f),
        decreases bs.len() - i,
    {
        push_baseline(out, &bs[i]);
        proof {
            lemma_concat_map_step(bs@, f, i as int);
            assert(out@ =~= before + concat_map(bs@.take(i + 1), f));
        }
        i = i + 1;
    }
    assert(bs@.take(bs@.len() as int) =~= bs@);
    assert(out@ =~= start + baselines_section(bs@));
}

fn push_preference_entry(out: &mut String, e: &(String, DeviceApiPreference))
    ensures
        final(out)@ == old(out)@ + preference_entry_text((e.0@, e.1)),
{
    let ghost start = out@;
    push_str(out, "\"");
    push_str(out, e.0.as_str());
    push_str(out, "\" = ");
    match e.1 {
        DeviceApiPreference::Auto => push_str(out, "\"Auto\""),
        DeviceApiPreference::XInput => push_str(out, "\"XInput\""),
        DeviceApiPreference::RawInput => push_str(out, "\"RawInput\""),
    }
    push_str(out, "\n");
    assert(out@ =~= start + preference_entry_text((e.0@, e.1)));
}

fn push_preferences(out: &mut String, prefs: &ApiPreferences)
    ensures
        final(out)@ == old(out)@ + preferences_section(prefs@),
{
    let ghost start = out@;
    let ghost f = |e: (Seq<char>, DeviceApiPreference)| preference_entry_text(e);
    let es = prefs.entries();
    let ghost s = prefs@;
    if es.len() == 0 {
        assert(out@ =~= start + preferences_section(prefs@));
        return;
    }
    push_str(out, "# ─── Device API Preferences (Auto-managed) ───\n");
    push_str(out, "# Preferred input API for each device (VID:PID format)\n");
    push_str(out, "# Options: \"Auto\" (default), \"XInput\", \"RawInput\"\n");
    push_str(out, "# Configure via Device Manager GUI window\n");
    push_str(out, "[device_api_preferences]\n");
    let ghost before = out@;
    let mut i: usize = 0;
    while i < es.len()
        invariant
            i <= es@.len(),
            s == entry_texts(es@),
            f == (|e: (Seq<char>, DeviceApiPreference)| preference_entry_text(e)),
            out@ == before + concat_map(s.take(i as int), f),
        decreases es.len() - i,
    {
        push_preference_entry(out, &es[i]);
        proof {
            lemma_concat_map_step(s, f, i as int);
            assert(s[i as int] == (es@[i as int].0@, es@[i as int].1));
            assert(out@ =~= before + concat_map(s.take(i + 1), f));
        }
        i = i + 1;
    }
    assert(s.take(s.len() as int) =~= s);
    push_str(out, "\n");
    assert(out@ =~= start + preferences_section(prefs@));
}

impl AppConfig {
    /// The text of the configuration file: a commented header with the
    /// global settings and the active preset, then the mappings, presets,
    /// device baselines and device API preferences.
    pub fn to_config_text(&self) -> (r: String)
        ensures
            r@ == config_text(*self),
    {
        let mut out = String::new();
        push_header(&mut out, self);
        push_mappings(&mut out, &self.mappings);
        push_presets(&mut out, &self.presets);
        push_baselines(&mut out, &self.hid_baselines);
        push_preferences(&mut out, &self.device_api_preferences);
        assert(out@ =~= config_text(*self));
        out
    }
}

} // verus!
