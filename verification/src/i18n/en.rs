//! English user interface texts.

use vstd::prelude::*;

use super::raw_key::RawKey;

verus! {

/// The English text for each key.
pub open spec fn en_text(key: RawKey) -> Seq<char> {
    match key {
        RawKey::AppTitle => "Sorahk"@,
        RawKey::SettingsBtn => "⚙ Settings"@,
        RawKey::AboutBtn => "❓ About"@,
        RawKey::Dark => "🌙 Dark"@,
        RawKey::Light => "☀ Light"@,
        RawKey::StatusTitle => "Status"@,
        RawKey::Paused => "Paused"@,
        RawKey::Running => "Running"@,
        RawKey::PauseBtn => "⏸ Pause"@,
        RawKey::StartBtn => "▶ Start"@,
        RawKey::ExitBtn => "✖ Exit"@,
        RawKey::HotkeySettingsTitle => "Hotkey Settings"@,
        RawKey::ToggleKeyLabel => "Toggle Key:"@,
        RawKey::ClickToSet => "Click to set"@,
        RawKey::ConfigSettingsTitle => "Configuration"@,
        RawKey::InputTimeoutDisplay => "Input Timeout:"@,
        RawKey::DefaultIntervalDisplay => "Default Interval:"@,
        RawKey::DefaultDurationDisplay => "Default Duration:"@,
        RawKey::ShowTrayIconDisplay => "Show Tray Icon:"@,
        RawKey::ShowNotificationsDisplay => "Show Notifications:"@,
        RawKey::AlwaysOnTopDisplay => "Always on Top:"@,
        RawKey::Yes => "Yes"@,
        RawKey::No => "No"@,
        RawKey::KeyMappingsTitle => "Key Mappings"@,
        RawKey::SettingsDialogTitle => "Settings"@,
        RawKey::Language => "Language:"@,
        RawKey::DarkMode => "Dark Mode:"@,
        RawKey::AlwaysOnTop => "Always on Top:"@,
        RawKey::ShowTrayIcon => "Show Tray Icon:"@,
        RawKey::ShowNotifications => "Show Notifications:"@,
        RawKey::ToggleKeySection => "Hotkeys"@,
        RawKey::SequenceFinalizeRowLabel => "Finish Sequence Key:"@,
        RawKey::SequenceFinalizeHint => "Pressing this key while recording a sequence ends the capture; the key itself is not recorded."@,
        RawKey::PressAnyKey => "Press any key..."@,
        RawKey::ClickToSetTrigger => "Click to set trigger"@,
        RawKey::ClickToSetTarget => "Click to set target"@,
        RawKey::GlobalConfigTitle => "Global Configuration"@,
        RawKey::InputTimeoutLabel => "Input Timeout (ms):"@,
        RawKey::DefaultIntervalLabel => "Default Interval (ms):"@,
        RawKey::DefaultDurationLabel => "Default Duration (ms):"@,
        RawKey::MouseMovePerEventMinLabel => "Mouse Move Noise Floor (px):"@,
        RawKey::MouseMovePerEventMinHint => "Mouse events that move less than this are ignored."@,
        RawKey::MouseMoveMinTriggerLabel => "Mouse Move Trigger Distance (px):"@,
        RawKey::MouseMoveMinTriggerHint => "Accumulated movement needed to fire a direction trigger."@,
        RawKey::MouseMoveRearmLabel => "Mouse Move Rearm Distance (px):"@,
        RawKey::MouseMoveRearmHint => "Reverse movement needed before the same direction can fire again."@,
        RawKey::WorkerCountLabel => "Worker Count:"@,
        RawKey::TriggerShort => "Trigger"@,
        RawKey::TargetShort => "Target"@,
        RawKey::IntShort => "Int"@,
        RawKey::DurShort => "Dur"@,
        RawKey::AddNewMappingTitle => "Add New Mapping"@,
        RawKey::AddBtn => "➕ Add"@,
        RawKey::ProcessWhitelistHint => "Process whitelist (empty = all processes):"@,
        RawKey::ProcessExample => "e.g. notepad.exe"@,
        RawKey::BrowseBtn => "📂 Browse"@,
        RawKey::SaveChangesBtn => "💾 Save Changes"@,
        RawKey::CancelSettingsBtn => "Cancel"@,
        RawKey::ChangesTakeEffect => "Changes take effect after saving."@,
        RawKey::CloseWindowTitle => "Close Window"@,
        RawKey::CloseSubtitle => "What would you like to do?"@,
        RawKey::MinimizeToTrayBtn => "Minimize to Tray"@,
        RawKey::ExitProgramBtn => "Exit Program"@,
        RawKey::CancelCloseBtn => "Cancel"@,
        RawKey::ErrorTitle => "Error"@,
        RawKey::Close => "Close"@,
        RawKey::DuplicateTriggerError => "This trigger key is already mapped."@,
        RawKey::DuplicateProcessError => "This process is already in the whitelist."@,
        RawKey::AboutDescriptionLine1 => "A lightweight auto key press tool."@,
        RawKey::AboutDescriptionLine2 => "Turbo keys, sequences and device input in one place."@,
        RawKey::Author => "Author:"@,
        RawKey::GitHub => "GitHub:"@,
        RawKey::License => "License:"@,
        RawKey::BuiltWith => "Built with:"@,
        RawKey::AboutInspired => "Inspired by the classic turbo controllers."@,
        RawKey::TurboOnHover => "Turbo on: repeats while held"@,
        RawKey::TurboOffHover => "Turbo off: follows trigger press and release"@,
        RawKey::HidActivationTitle => "Device Activation"@,
        RawKey::HidActivationPressPrompt => "Press and hold a single button on the device."@,
        RawKey::HidActivationReleasePrompt => "Now release the button."@,
        RawKey::HidActivationWarningTitle => "Please note"@,
        RawKey::HidActivationWarning1 => "Press only one button at a time."@,
        RawKey::HidActivationWarning2 => "Do not move sticks or triggers."@,
        RawKey::HidActivationWarning3 => "The idle state is recorded as the baseline."@,
        RawKey::HidActivationSuccessTitle => "Activation Complete"@,
        RawKey::HidActivationSuccessMessage => "The device is ready to use."@,
        RawKey::HidActivationSuccessHint => "You can now capture its buttons in Settings."@,
        RawKey::HidActivationAutoClose => "This window closes automatically."@,
        RawKey::HidActivationFailedTitle => "Activation Failed"@,
        RawKey::HidActivationError => "The device state could not be recorded."@,
        RawKey::HidActivationRetry => "Retry"@,
        RawKey::HidActivationCancel => "Cancel"@,
        RawKey::MouseMoveDirectionLabel => "Mouse Move Direction"@,
        RawKey::MouseMoveUp => "↑ Up"@,
        RawKey::MouseMoveDown => "↓ Down"@,
        RawKey::MouseMoveLeft => "← Left"@,
        RawKey::MouseMoveRight => "→ Right"@,
        RawKey::MouseMoveUpLeft => "↖ Up Left"@,
        RawKey::MouseMoveUpRight => "↗ Up Right"@,
        RawKey::MouseMoveDownLeft => "↙ Down Left"@,
        RawKey::MouseMoveDownRight => "↘ Down Right"@,
        RawKey::SetMouseDirectionHover => "Set mouse move direction"@,
        RawKey::MouseScrollDirectionLabel => "Mouse Scroll Direction"@,
        RawKey::MouseScrollUp => "⬆ Scroll Up"@,
        RawKey::MouseScrollDown => "⬇ Scroll Down"@,
        RawKey::MouseMiddleButton => "Middle Button"@,
        RawKey::SetMouseScrollDirectionHover => "Set mouse scroll direction"@,
        RawKey::SpeedLabel => "Speed:"@,
        RawKey::RawInputCaptureModeLabel => "Raw Input Capture Mode:"@,
        RawKey::XInputCaptureModeLabel => "XInput Capture Mode:"@,
        RawKey::CaptureModeMostSustained => "Most Sustained"@,
        RawKey::CaptureModeAdaptiveIntelligent => "Adaptive"@,
        RawKey::CaptureModeMaxChangedBits => "Most Changed Bits"@,
        RawKey::CaptureModeMaxSetBits => "Most Set Bits"@,
        RawKey::CaptureModeLastStable => "Last Stable"@,
        RawKey::CaptureModeHatSwitchOptimized => "Hat Switch Optimized"@,
        RawKey::CaptureModeAnalogOptimized => "Analog Optimized"@,
        RawKey::CaptureModeDiagonalPriority => "Diagonal Priority"@,
        RawKey::AddTargetKeyHover => "Add a target key"@,
        RawKey::AddSequenceKeyHover => "Add a key to the sequence"@,
        RawKey::ClearAllTriggerKeysHover => "Clear all trigger keys"@,
        RawKey::ClearAllTargetKeysHover => "Clear all target keys"@,
        RawKey::DiagonalHintTitle => "Diagonal input"@,
        RawKey::DiagonalHint => "Press two directions together to record a diagonal."@,
        RawKey::TriggerModeLabel => "Trigger Mode:"@,
        RawKey::TriggerModeSingle => "Single Key"@,
        RawKey::TriggerModeSequence => "Sequence"@,
        RawKey::TriggerModeSingleBadge => "KEY"@,
        RawKey::TriggerModeSequenceBadge => "SEQ"@,
        RawKey::SequenceTriggerExplanation => "Fires when the keys are entered in order within the time window."@,
        RawKey::SequenceWindowLabel => "Time Window (ms):"@,
        RawKey::SequenceWindowHint => "Maximum time to complete the sequence."@,
        RawKey::SequenceCapturing => "Recording sequence..."@,
        RawKey::SequenceCaptureHint => "Enter the keys in order, then press the finish key."@,
        RawKey::SequenceComplete => "✔ Done"@,
        RawKey::SequenceClearBtn => "Clear"@,
        RawKey::SequenceExampleLabel => "Example:"@,
        RawKey::TargetModeLabel => "Target Mode:"@,
        RawKey::TargetModeSingle => "Single"@,
        RawKey::TargetModeMulti => "Multi"@,
        RawKey::TargetModeSequence => "Sequence"@,
        RawKey::TargetModeSingleBadge => "ONE"@,
        RawKey::TargetModeMultiBadge => "MULTI"@,
        RawKey::TargetModeSequenceBadge => "SEQ"@,
        RawKey::TargetModeMultiExplanation => "All target keys are pressed together."@,
        RawKey::TargetModeSequenceExplanation => "Target keys are pressed one after another."@,
        RawKey::TargetSequenceOutputHint => "Keys are sent in the order shown."@,
        RawKey::DevicesBtn => "🎮 Devices"@,
        RawKey::DeviceManagerTitle => "Device Manager"@,
        RawKey::ConnectedDevicesTitle => "Connected Devices"@,
        RawKey::RefreshBtn => "🔄 Refresh"@,
        RawKey::XInputControllersTitle => "XInput Controllers"@,
        RawKey::NoControllersConnected => "No controllers connected"@,
        RawKey::HidDevicesTitle => "HID Devices"@,
        RawKey::NoHidDevicesDetected => "No HID devices detected"@,
        RawKey::SlotLabel => "Slot"@,
        RawKey::HideBtn => "Hide"@,
        RawKey::DeviceSettingsBtn => "⚙ Device Settings"@,
        RawKey::VibrationControlTitle => "Vibration"@,
        RawKey::LeftMotorLabel => "Left Motor:"@,
        RawKey::RightMotorLabel => "Right Motor:"@,
        RawKey::PowerLabel => "Power:"@,
        RawKey::TestVibrationBtn => "Test Vibration"@,
        RawKey::StopVibrationBtn => "Stop Vibration"@,
        RawKey::DeadzoneSettingsTitle => "Deadzone"@,
        RawKey::StickLabel => "Stick:"@,
        RawKey::TriggerLabelShort => "Trigger:"@,
        RawKey::ThresholdLabel => "Threshold:"@,
        RawKey::PreferredApiLabel => "Preferred API:"@,
        RawKey::ApiAuto => "Auto"@,
        RawKey::ApiXInput => "XInput"@,
        RawKey::ApiRawInput => "Raw Input"@,
        RawKey::ReactivateBtn => "Reactivate"@,
        RawKey::AllDevicesFilter => "All Devices"@,
        RawKey::GameDevicesOnlyFilter => "Game Devices Only"@,
        RawKey::NoGameDevicesDetected => "No game devices detected"@,
        RawKey::TrayActivate => "Activate"@,
        RawKey::TrayPause => "Pause"@,
        RawKey::TrayShowWindow => "Show Window"@,
        RawKey::TrayAbout => "About"@,
        RawKey::TrayExit => "Exit"@,
        RawKey::TrayNotificationLaunched => "Sorahk is running in the background."@,
        RawKey::TrayNotificationActivated => "Sorahk activated."@,
        RawKey::TrayNotificationPaused => "Sorahk paused."@,
        RawKey::SequenceIcon => "🔗"@,
        RawKey::TargetIcon => "🎯"@,
        RawKey::ArrowIcon => "→"@,
        RawKey::DeleteIcon => "🗑"@,
        RawKey::KeysText => "keys"@,
        RawKey::TargetsText => "targets"@,
        RawKey::RulePropsButton => "⚙ Rule"@,
        RawKey::RulePropsDialogTitle => "Rule Properties"@,
        RawKey::RulePropsHint => "Marked keys stay held after the body plays; appended keys are pressed afterwards."@,
        RawKey::RulePropsHoldColumn => "Hold"@,
        RawKey::RulePropsAppendLabel => "Append keys:"@,
        RawKey::RulePropsAddAppend => "➕ Add"@,
        RawKey::RulePropsAppendPlaceholder => "Key name"@,
        RawKey::RulePropsSave => "Save"@,
        RawKey::RulePropsCancel => "Cancel"@,
        RawKey::PresetTitle => "Presets"@,
        RawKey::PresetSaveBtn => "💾 Save Preset"@,
        RawKey::PresetDeleteBtn => "🗑 Delete"@,
        RawKey::PresetRenameBtn => "✏ Rename"@,
        RawKey::PresetNameHint => "Preset name"@,
        RawKey::NoPreset => "(none)"@,
        RawKey::NoteLabel => "Note:"@,
        RawKey::NoteHint => "Optional note for this mapping"@,
    }
}

/// Looks up the English text for `key`.
pub fn en_raw(key: RawKey) -> (s: &'static str)
    ensures
        s@ == en_text(key),
{
    match key {
        RawKey::AppTitle => "Sorahk",
        RawKey::SettingsBtn => "⚙ Settings",
        RawKey::AboutBtn => "❓ About",
        RawKey::Dark => "🌙 Dark",
        RawKey::Light => "☀ Light",
        RawKey::StatusTitle => "Status",
        RawKey::Paused => "Paused",
        RawKey::Running => "Running",
        RawKey::PauseBtn => "⏸ Pause",
        RawKey::StartBtn => "▶ Start",
        RawKey::ExitBtn => "✖ Exit",
        RawKey::HotkeySettingsTitle => "Hotkey Settings",
        RawKey::ToggleKeyLabel => "Toggle Key:",
        RawKey::ClickToSet => "Click to set",
        RawKey::ConfigSettingsTitle => "Configuration",
        RawKey::InputTimeoutDisplay => "Input Timeout:",
        RawKey::DefaultIntervalDisplay => "Default Interval:",
        RawKey::DefaultDurationDisplay => "Default Duration:",
        RawKey::ShowTrayIconDisplay => "Show Tray Icon:",
        RawKey::ShowNotificationsDisplay => "Show Notifications:",
        RawKey::AlwaysOnTopDisplay => "Always on Top:",
        RawKey::Yes => "Yes",
        RawKey::No => "No",
        RawKey::KeyMappingsTitle => "Key Mappings",
        RawKey::SettingsDialogTitle => "Settings",
        RawKey::Language => "Language:",
        RawKey::DarkMode => "Dark Mode:",
        RawKey::AlwaysOnTop => "Always on Top:",
        RawKey::ShowTrayIcon => "Show Tray Icon:",
        RawKey::ShowNotifications => "Show Notifications:",
        RawKey::ToggleKeySection => "Hotkeys",
        RawKey::SequenceFinalizeRowLabel => "Finish Sequence Key:",
        RawKey::SequenceFinalizeHint => "Pressing this key while recording a sequence ends the capture; the key itself is not recorded.",
        RawKey::PressAnyKey => "Press any key...",
        RawKey::ClickToSetTrigger => "Click to set trigger",
        RawKey::ClickToSetTarget => "Click to set target",
        RawKey::GlobalConfigTitle => "Global Configuration",
        RawKey::InputTimeoutLabel => "Input Timeout (ms):",
        RawKey::DefaultIntervalLabel => "Default Interval (ms):",
        RawKey::DefaultDurationLabel => "Default Duration (ms):",
        RawKey::MouseMovePerEventMinLabel => "Mouse Move Noise Floor (px):",
        RawKey::MouseMovePerEventMinHint => "Mouse events that move less than this are ignored.",
        RawKey::MouseMoveMinTriggerLabel => "Mouse Move Trigger Distance (px):",
        RawKey::MouseMoveMinTriggerHint => "Accumulated movement needed to fire a direction trigger.",
        RawKey::MouseMoveRearmLabel => "Mouse Move Rearm Distance (px):",
        RawKey::MouseMoveRearmHint => "Reverse movement needed before the same direction can fire again.",
        RawKey::WorkerCountLabel => "Worker Count:",
        RawKey::TriggerShort => "Trigger",
        RawKey::TargetShort => "Target",
        RawKey::IntShort => "Int",
        RawKey::DurShort => "Dur",
        RawKey::AddNewMappingTitle => "Add New Mapping",
        RawKey::AddBtn => "➕ Add",
        RawKey::ProcessWhitelistHint => "Process whitelist (empty = all processes):",
        RawKey::ProcessExample => "e.g. notepad.exe",
        RawKey::BrowseBtn => "📂 Browse",
        RawKey::SaveChangesBtn => "💾 Save Changes",
        RawKey::CancelSettingsBtn => "Cancel",
        RawKey::ChangesTakeEffect => "Changes take effect after saving.",
        RawKey::CloseWindowTitle => "Close Window",
        RawKey::CloseSubtitle => "What would you like to do?",
        RawKey::MinimizeToTrayBtn => "Minimize to Tray",
        RawKey::ExitProgramBtn => "Exit Program",
        RawKey::CancelCloseBtn => "Cancel",
        RawKey::ErrorTitle => "Error",
        RawKey::Close => "Close",
        RawKey::DuplicateTriggerError => "This trigger key is already mapped.",
        RawKey::DuplicateProcessError => "This process is already in the whitelist.",
        RawKey::AboutDescriptionLine1 => "A lightweight auto key press tool.",
        RawKey::AboutDescriptionLine2 => "Turbo keys, sequences and device input in one place.",
        RawKey::Author => "Author:",
        RawKey::GitHub => "GitHub:",
        RawKey::License => "License:",
        RawKey::BuiltWith => "Built with:",
        RawKey::AboutInspired => "Inspired by the classic turbo controllers.",
        RawKey::TurboOnHover => "Turbo on: repeats while held",
        RawKey::TurboOffHover => "Turbo off: follows trigger press and release",
        RawKey::HidActivationTitle => "Device Activation",
        RawKey::HidActivationPressPrompt => "Press and hold a single button on the device.",
        RawKey::HidActivationReleasePrompt => "Now release the button.",
        RawKey::HidActivationWarningTitle => "Please note",
        RawKey::HidActivationWarning1 => "Press only one button at a time.",
        RawKey::HidActivationWarning2 => "Do not move sticks or triggers.",
        RawKey::HidActivationWarning3 => "The idle state is recorded as the baseline.",
        RawKey::HidActivationSuccessTitle => "Activation Complete",
        RawKey::HidActivationSuccessMessage => "The device is ready to use.",
        RawKey::HidActivationSuccessHint => "You can now capture its buttons in Settings.",
        RawKey::HidActivationAutoClose => "This window closes automatically.",
        RawKey::HidActivationFailedTitle => "Activation Failed",
        RawKey::HidActivationError => "The device state could not be recorded.",
        RawKey::HidActivationRetry => "Retry",
        RawKey::HidActivationCancel => "Cancel",
        RawKey::MouseMoveDirectionLabel => "Mouse Move Direction",
        RawKey::MouseMoveUp => "↑ Up",
        RawKey::MouseMoveDown => "↓ Down",
        RawKey::MouseMoveLeft => "← Left",
        RawKey::MouseMoveRight => "→ Right",
        RawKey::MouseMoveUpLeft => "↖ Up Left",
        RawKey::MouseMoveUpRight => "↗ Up Right",
        RawKey::MouseMoveDownLeft => "↙ Down Left",
        RawKey::MouseMoveDownRight => "↘ Down Right",
        RawKey::SetMouseDirectionHover => "Set mouse move direction",
        RawKey::MouseScrollDirectionLabel => "Mouse Scroll Direction",
        RawKey::MouseScrollUp => "⬆ Scroll Up",
        RawKey::MouseScrollDown => "⬇ Scroll Down",
        RawKey::MouseMiddleButton => "Middle Button",
        RawKey::SetMouseScrollDirectionHover => "Set mouse scroll direction",
        RawKey::SpeedLabel => "Speed:",
        RawKey::RawInputCaptureModeLabel => "Raw Input Capture Mode:",
        RawKey::XInputCaptureModeLabel => "XInput Capture Mode:",
        RawKey::CaptureModeMostSustained => "Most Sustained",
        RawKey::CaptureModeAdaptiveIntelligent => "Adaptive",
        RawKey::CaptureModeMaxChangedBits => "Most Changed Bits",
        RawKey::CaptureModeMaxSetBits => "Most Set Bits",
        RawKey::CaptureModeLastStable => "Last Stable",
        RawKey::CaptureModeHatSwitchOptimized => "Hat Switch Optimized",
        RawKey::CaptureModeAnalogOptimized => "Analog Optimized",
        RawKey::CaptureModeDiagonalPriority => "Diagonal Priority",
        RawKey::AddTargetKeyHover => "Add a target key",
        RawKey::AddSequenceKeyHover => "Add a key to the sequence",
        RawKey::ClearAllTriggerKeysHover => "Clear all trigger keys",
        RawKey::ClearAllTargetKeysHover => "Clear all target keys",
        RawKey::DiagonalHintTitle => "Diagonal input",
        RawKey::DiagonalHint => "Press two directions together to record a diagonal.",
        RawKey::TriggerModeLabel => "Trigger Mode:",
        RawKey::TriggerModeSingle => "Single Key",
        RawKey::TriggerModeSequence => "Sequence",
        RawKey::TriggerModeSingleBadge => "KEY",
        RawKey::TriggerModeSequenceBadge => "SEQ",
        RawKey::SequenceTriggerExplanation => "Fires when the keys are entered in order within the time window.",
        RawKey::SequenceWindowLabel => "Time Window (ms):",
        RawKey::SequenceWindowHint => "Maximum time to complete the sequence.",
        RawKey::SequenceCapturing => "Recording sequence...",
        RawKey::SequenceCaptureHint => "Enter the keys in order, then press the finish key.",
        RawKey::SequenceComplete => "✔ Done",
        RawKey::SequenceClearBtn => "Clear",
        RawKey::SequenceExampleLabel => "Example:",
        RawKey::TargetModeLabel => "Target Mode:",
        RawKey::TargetModeSingle => "Single",
        RawKey::TargetModeMulti => "Multi",
        RawKey::TargetModeSequence => "Sequence",
        RawKey::TargetModeSingleBadge => "ONE",
        RawKey::TargetModeMultiBadge => "MULTI",
        RawKey::TargetModeSequenceBadge => "SEQ",
        RawKey::TargetModeMultiExplanation => "All target keys are pressed together.",
        RawKey::TargetModeSequenceExplanation => "Target keys are pressed one after another.",
        RawKey::TargetSequenceOutputHint => "Keys are sent in the order shown.",
        RawKey::DevicesBtn => "🎮 Devices",
        RawKey::DeviceManagerTitle => "Device Manager",
        RawKey::ConnectedDevicesTitle => "Connected Devices",
        RawKey::RefreshBtn => "🔄 Refresh",
        RawKey::XInputControllersTitle => "XInput Controllers",
        RawKey::NoControllersConnected => "No controllers connected",
        RawKey::HidDevicesTitle => "HID Devices",
        RawKey::NoHidDevicesDetected => "No HID devices detected",
        RawKey::SlotLabel => "Slot",
        RawKey::HideBtn => "Hide",
        RawKey::DeviceSettingsBtn => "⚙ Device Settings",
        RawKey::VibrationControlTitle => "Vibration",
        RawKey::LeftMotorLabel => "Left Motor:",
        RawKey::RightMotorLabel => "Right Motor:",
        RawKey::PowerLabel => "Power:",
        RawKey::TestVibrationBtn => "Test Vibration",
        RawKey::StopVibrationBtn => "Stop Vibration",
        RawKey::DeadzoneSettingsTitle => "Deadzone",
        RawKey::StickLabel => "Stick:",
        RawKey::TriggerLabelShort => "Trigger:",
        RawKey::ThresholdLabel => "Threshold:",
        RawKey::PreferredApiLabel => "Preferred API:",
        RawKey::ApiAuto => "Auto",
        RawKey::ApiXInput => "XInput",
        RawKey::ApiRawInput => "Raw Input",
        RawKey::ReactivateBtn => "Reactivate",
        RawKey::AllDevicesFilter => "All Devices",
        RawKey::GameDevicesOnlyFilter => "Game Devices Only",
        RawKey::NoGameDevicesDetected => "No game devices detected",
        RawKey::TrayActivate => "Activate",
        RawKey::TrayPause => "Pause",
        RawKey::TrayShowWindow => "Show Window",
        RawKey::TrayAbout => "About",
        RawKey::TrayExit => "Exit",
        RawKey::TrayNotificationLaunched => "Sorahk is running in the background.",
        RawKey::TrayNotificationActivated => "Sorahk activated.",
        RawKey::TrayNotificationPaused => "Sorahk paused.",
        RawKey::SequenceIcon => "🔗",
        RawKey::TargetIcon => "🎯",
        RawKey::ArrowIcon => "→",
        RawKey::DeleteIcon => "🗑",
        RawKey::KeysText => "keys",
        RawKey::TargetsText => "targets",
        RawKey::RulePropsButton => "⚙ Rule",
        RawKey::RulePropsDialogTitle => "Rule Properties",
        RawKey::RulePropsHint => "Marked keys stay held after the body plays; appended keys are pressed afterwards.",
        RawKey::RulePropsHoldColumn => "Hold",
        RawKey::RulePropsAppendLabel => "Append keys:",
        RawKey::RulePropsAddAppend => "➕ Add",
        RawKey::RulePropsAppendPlaceholder => "Key name",
        RawKey::RulePropsSave => "Save",
        RawKey::RulePropsCancel => "Cancel",
        RawKey::PresetTitle => "Presets",
        RawKey::PresetSaveBtn => "💾 Save Preset",
        RawKey::PresetDeleteBtn => "🗑 Delete",
        RawKey::PresetRenameBtn => "✏ Rename",
        RawKey::PresetNameHint => "Preset name",
        RawKey::NoPreset => "(none)",
        RawKey::NoteLabel => "Note:",
        RawKey::NoteHint => "Optional note for this mapping",
    }
}

} // verus!
