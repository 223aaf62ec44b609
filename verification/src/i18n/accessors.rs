//! Accessors of [`CachedTranslations`]: each returns one text of the
//! selected language.

use vstd::prelude::*;

use super::raw_key::{get_raw_translation, raw_text, RawKey};
use super::{CachedTranslations, Language};
use crate::text::{decimal, push_char, push_decimal, push_str};

verus! {

impl CachedTranslations {
    /// The texts of `lang`.
    pub fn new(lang: Language) -> (r: Self)
        ensures
            r@ == lang,
    {
        CachedTranslations { lang }
    }

    pub fn app_title(&self) -> (r: &'static str)
        ensures
            r@ == raw_text(self@, RawKey::AppTitle),
    {
        get_raw_translation(self.lang, RawKey::AppTitle)
    }

    pub fn settings_button(&self) -> (r: &'static str)
        ensures
            r@ == raw_text(self@, RawKey::SettingsBtn),
    {
        get_raw_translation(self.lang, RawKey::SettingsBtn)
    }

    pub fn about_button(&self) -> (r: &'static str)
        ensures
            r@ == raw_text(self@, RawKey::AboutBtn),
    {
        get_raw_translation(self.lang, RawKey::AboutBtn)
    }

    pub fn dark_theme(&self) -> (r: &'static str)
        ensures
            r@ == raw_text(self@, RawKey::Dark),
    {
        get_raw_translation(self.lang, RawKey::Dark)
    }

    pub fn light_theme(&self) -> (r: &'static str)
        ensures
            r@ == raw_text(self@, RawKey::Light),
    {
        get_raw_translation(self.lang, RawKey::Light)
    }

    pub fn language(&self) -> (r: &'static str)
        ensures
            r@ == raw_text(self@, RawKey::Language),
    {
        get_raw_translation(self.lang, RawKey::Language)
    }

    pub fn dark_mode(&self) -> (r: &'static str)
        ensures
            r@ == raw_text(self@, RawKey::DarkMode),
    {
        get_raw_translation(self.lang, RawKey::DarkMode)
    }

    pub fn always_on_top(&self) -> (r: &'static str)
        ensures
            r@ == raw_text(self@, RawKey::AlwaysOnTop),
    {
        get_raw_translation(self.lang, RawKey::AlwaysOnTop)
    }

    pub fn show_tray_icon(&self) -> (r: &'static str)
        ensures
            r@ == raw_text(self@, RawKey::ShowTrayIcon),
    {
        get_raw_translation(self.lang, RawKey::ShowTrayIcon)
    }

    pub fn show_notifications(&self) -> (r: &'static str)
        ensures
            r@ == raw_text(self@, RawKey::ShowNotifications),
    {
        get_raw_translation(self.lang, RawKey::ShowNotifications)
    }

    pub fn hotkeys_section_title(&self) -> (r: &'static str)
        ensures
            r@ == raw_text(self@, RawKey::ToggleKeySection),
    {
        get_raw_translation(self.lang, RawKey::ToggleKeySection)
    }

    pub fn sequence_finalize_row_label(&self) -> (r: &'static str)
        ensures
            r@ == raw_text(self@, RawKey::SequenceFinalizeRowLabel),
    {
        get_raw_translation(self.lang, RawKey::SequenceFinalizeRowLabel)
    }

    pub fn sequence_finalize_hint(&self) -> (r: &'static str)
        ensures
            r@ == raw_text(self@, RawKey::SequenceFinalizeHint),
    {
        get_raw_translation(self.lang, RawKey::SequenceFinalizeHint)
    }

    pub fn save(&self) -> (r: &'static str)
        ensures
            r@ == raw_text(self@, RawKey::SaveChangesBtn),
    {
        get_raw_translation(self.lang, RawKey::SaveChangesBtn)
    }

    pub fn cancel(&self) -> (r: &'static str)
        ensures
            r@ == raw_text(self@, RawKey::CancelSettingsBtn),
    {
        get_raw_translation(self.lang, RawKey::CancelSettingsBtn)
    }

    pub fn status_title(&self) -> (r: &'static str)
        ensures
            r@ == raw_text(self@, RawKey::StatusTitle),
    {
        get_raw_translation(self.lang, RawKey::StatusTitle)
    }

    pub fn paused_status(&self) -> (r: &'static str)
        ensures
            r@ == raw_text(self@, RawKey::Paused),
    {
        get_raw_translation(self.lang, RawKey::Paused)
    }

    pub fn hotkey_settings_title(&self) -> (r: &'static str)
        ensures
            r@ == raw_text(self@, RawKey::HotkeySettingsTitle),
    {
        get_raw_translation(self.lang, RawKey::HotkeySettingsTitle)
    }

    pub fn toggle_key_label(&self) -> (r: &'static str)
        ensures
            r@ == raw_text(self@, RawKey::ToggleKeyLabel),
    {
        get_raw_translation(self.lang, RawKey::ToggleKeyLabel)
    }

    pub fn click_to_set(&self) -> (r: &'static str)
        ensures
            r@ == raw_text(self@, RawKey::ClickToSet),
    {
        get_raw_translation(self.lang, RawKey::ClickToSet)
    }

    pub fn config_settings_title(&self) -> (r: &'static str)
        ensures
            r@ == raw_text(self@, RawKey::ConfigSettingsTitle),
    {
        get_raw_translation(self.lang, RawKey::ConfigSettingsTitle)
    }

    pub fn key_mappings_title(&self) -> (r: &'static str)
        ensures
            r@ == raw_text(self@, RawKey::KeyMappingsTitle),
    {
        get_raw_translation(self.lang, RawKey::KeyMappingsTitle)
    }

    pub fn settings_dialog_title(&self) -> (r: &'static str)
        ensures
            r@ == raw_text(self@, RawKey::SettingsDialogTitle),
    {
        get_raw_translation(self.lang, RawKey::SettingsDialogTitle)
    }

    pub fn press_any_key(&self) -> (r: &'static str)
        ensures
            r@ == raw_text(self@, RawKey::PressAnyKey),
    {
        get_raw_translation(self.lang, RawKey::PressAnyKey)
    }

    pub fn click_to_set_trigger(&self) -> (r: &'static str)
        ensures
            r@ == raw_text(self@, RawKey::ClickToSetTrigger),
    {
        get_raw_translation(self.lang, RawKey::ClickToSetTrigger)
    }

    pub fn click_to_set_target(&self) -> (r: &'static str)
        ensures
            r@ == raw_text(self@, RawKey::ClickToSetTarget),
    {
        get_raw_translation(self.lang, RawKey::ClickToSetTarget)
    }

    pub fn global_config_title(&self) -> (r: &'static str)
        ensures
            r@ == raw_text(self@, RawKey::GlobalConfigTitle),
    {
        get_raw_translation(self.lang, RawKey::GlobalConfigTitle)
    }

    pub fn input_timeout_label(&self) -> (r: &'static str)
        ensures
            r@ == raw_text(self@, RawKey::InputTimeoutLabel),
    {
        get_raw_translation(self.lang, RawKey::InputTimeoutLabel)
    }

    pub fn default_interval_label(&self) -> (r: &'static str)
        ensures
            r@ == raw_text(self@, RawKey::DefaultIntervalLabel),
    {
        get_raw_translation(self.lang, RawKey::DefaultIntervalLabel)
    }

    pub fn default_duration_label(&self) -> (r: &'static str)
        ensures
            r@ == raw_text(self@, RawKey::DefaultDurationLabel),
    {
        get_raw_translation(self.lang, RawKey::DefaultDurationLabel)
    }

    pub fn mouse_move_per_event_min_label(&self) -> (r: &'static str)
        ensures
            r@ == raw_text(self@, RawKey::MouseMovePerEventMinLabel),
    {
        get_raw_translation(self.lang, RawKey::MouseMovePerEventMinLabel)
    }

    pub fn mouse_move_per_event_min_hint(&self) -> (r: &'static str)
        ensures
            r@ == raw_text(self@, RawKey::MouseMovePerEventMinHint),
    {
        get_raw_translation(self.lang, RawKey::MouseMovePerEventMinHint)
    }

    pub fn mouse_move_min_trigger_label(&self) -> (r: &'static str)
        ensures
            r@ == raw_text(self@, RawKey::MouseMoveMinTriggerLabel),
    {
        get_raw_translation(self.lang, RawKey::MouseMoveMinTriggerLabel)
    }

    pub fn mouse_move_min_trigger_hint(&self) -> (r: &'static str)
        ensures
            r@ == raw_text(self@, RawKey::MouseMoveMinTriggerHint),
    {
        get_raw_translation(self.lang, RawKey::MouseMoveMinTriggerHint)
    }

    pub fn mouse_move_rearm_label(&self) -> (r: &'static str)
        ensures
            r@ == raw_text(self@, RawKey::MouseMoveRearmLabel),
    {
        get_raw_translation(self.lang, RawKey::MouseMoveRearmLabel)
    }

    pub fn mouse_move_rearm_hint(&self) -> (r: &'static str)
        ensures
            r@ == raw_text(self@, RawKey::MouseMoveRearmHint),
    {
        get_raw_translation(self.lang, RawKey::MouseMoveRearmHint)
    }

    pub fn close_window_title(&self) -> (r: &'static str)
        ensures
            r@ == raw_text(self@, RawKey::CloseWindowTitle),
    {
        get_raw_translation(self.lang, RawKey::CloseWindowTitle)
    }

    pub fn close_subtitle(&self) -> (r: &'static str)
        ensures
            r@ == raw_text(self@, RawKey::CloseSubtitle),
    {
        get_raw_translation(self.lang, RawKey::CloseSubtitle)
    }

    pub fn minimize_to_tray_button(&self) -> (r: &'static str)
        ensures
            r@ == raw_text(self@, RawKey::MinimizeToTrayBtn),
    {
        get_raw_translation(self.lang, RawKey::MinimizeToTrayBtn)
    }

    pub fn exit_program_button(&self) -> (r: &'static str)
        ensures
            r@ == raw_text(self@, RawKey::ExitProgramBtn),
    {
        get_raw_translation(self.lang, RawKey::ExitProgramBtn)
    }

    pub fn cancel_close_button(&self) -> (r: &'static str)
        ensures
            r@ == raw_text(self@, RawKey::CancelCloseBtn),
    {
        get_raw_translation(self.lang, RawKey::CancelCloseBtn)
    }

    pub fn error_title(&self) -> (r: &'static str)
        ensures
            r@ == raw_text(self@, RawKey::ErrorTitle),
    {
        get_raw_translation(self.lang, RawKey::ErrorTitle)
    }

    pub fn error_close_button(&self) -> (r: &'static str)
        ensures
            r@ == raw_text(self@, RawKey::Close),
    {
        get_raw_translation(self.lang, RawKey::Close)
    }

    pub fn duplicate_trigger_error(&self) -> (r: &'static str)
        ensures
            r@ == raw_text(self@, RawKey::DuplicateTriggerError),
    {
        get_raw_translation(self.lang, RawKey::DuplicateTriggerError)
    }

    pub fn duplicate_process_error(&self) -> (r: &'static str)
        ensures
            r@ == raw_text(self@, RawKey::DuplicateProcessError),
    {
        get_raw_translation(self.lang, RawKey::DuplicateProcessError)
    }

    pub fn about_description_line1(&self) -> (r: &'static str)
        ensures
            r@ == raw_text(self@, RawKey::AboutDescriptionLine1),
    {
        get_raw_translation(self.lang, RawKey::AboutDescriptionLine1)
    }

    pub fn about_description_line2(&self) -> (r: &'static str)
        ensures
            r@ == raw_text(self@, RawKey::AboutDescriptionLine2),
    {
        get_raw_translation(self.lang, RawKey::AboutDescriptionLine2)
    }

    pub fn about_author(&self) -> (r: &'static str)
        ensures
            r@ == raw_text(self@, RawKey::Author),
    {
        get_raw_translation(self.lang, RawKey::Author)
    }

    pub fn about_github(&self) -> (r: &'static str)
        ensures
            r@ == raw_text(self@, RawKey::GitHub),
    {
        get_raw_translation(self.lang, RawKey::GitHub)
    }

    pub fn about_license(&self) -> (r: &'static str)
        ensures
            r@ == raw_text(self@, RawKey::License),
    {
        get_raw_translation(self.lang, RawKey::License)
    }

    pub fn about_built_with(&self) -> (r: &'static str)
        ensures
            r@ == raw_text(self@, RawKey::BuiltWith),
    {
        get_raw_translation(self.lang, RawKey::BuiltWith)
    }

    pub fn about_inspired(&self) -> (r: &'static str)
        ensures
            r@ == raw_text(self@, RawKey::AboutInspired),
    {
        get_raw_translation(self.lang, RawKey::AboutInspired)
    }

    pub fn turbo_on_hover(&self) -> (r: &'static str)
        ensures
            r@ == raw_text(self@, RawKey::TurboOnHover),
    {
        get_raw_translation(self.lang, RawKey::TurboOnHover)
    }

    pub fn turbo_off_hover(&self) -> (r: &'static str)
        ensures
            r@ == raw_text(self@, RawKey::TurboOffHover),
    {
        get_raw_translation(self.lang, RawKey::TurboOffHover)
    }

    pub fn hid_activation_title(&self) -> (r: &'static str)
        ensures
            r@ == raw_text(self@, RawKey::HidActivationTitle),
    {
        get_raw_translation(self.lang, RawKey::HidActivationTitle)
    }

    pub fn hid_activation_press_prompt(&self) -> (r: &'static str)
        ensures
            r@ == raw_text(self@, RawKey::HidActivationPressPrompt),
    {
        get_raw_translation(self.lang, RawKey::HidActivationPressPrompt)
    }

    pub fn hid_activation_release_prompt(&self) -> (r: &'static str)
        ensures
            r@ == raw_text(self@, RawKey::HidActivationReleasePrompt),
    {
        get_raw_translation(self.lang, RawKey::HidActivationReleasePrompt)
    }

    pub fn hid_activation_warning_title(&self) -> (r: &'static str)
        ensures
            r@ == raw_text(self@, RawKey::HidActivationWarningTitle),
    {
        get_raw_translation(self.lang, RawKey::HidActivationWarningTitle)
    }

    pub fn hid_activation_warning_1(&self) -> (r: &'static str)
        ensures
            r@ == raw_text(self@, RawKey::HidActivationWarning1),
    {
        get_raw_translation(self.lang, RawKey::HidActivationWarning1)
    }

    pub fn hid_activation_warning_2(&self) -> (r: &'static str)
        ensures
            r@ == raw_text(self@, RawKey::HidActivationWarning2),
    {
        get_raw_translation(self.lang, RawKey::HidActivationWarning2)
    }

    pub fn hid_activation_warning_3(&self) -> (r: &'static str)
        ensures
            r@ == raw_text(self@, RawKey::HidActivationWarning3),
    {
        get_raw_translation(self.lang, RawKey::HidActivationWarning3)
    }

    pub fn hid_activation_success_title(&self) -> (r: &'static str)
        ensures
            r@ == raw_text(self@, RawKey::HidActivationSuccessTitle),
    {
        get_raw_translation(self.lang, RawKey::HidActivationSuccessTitle)
    }

    pub fn hid_activation_success_message(&self) -> (r: &'static str)
        ensures
            r@ == raw_text(self@, RawKey::HidActivationSuccessMessage),
    {
        get_raw_translation(self.lang, RawKey::HidActivationSuccessMessage)
    }

    pub fn hid_activation_success_hint(&self) -> (r: &'static str)
        ensures
            r@ == raw_text(self@, RawKey::HidActivationSuccessHint),
    {
        get_raw_translation(self.lang, RawKey::HidActivationSuccessHint)
    }

    pub fn hid_activation_auto_close(&self) -> (r: &'static str)
        ensures
            r@ == raw_text(self@, RawKey::HidActivationAutoClose),
    {
        get_raw_translation(self.lang, RawKey::HidActivationAutoClose)
    }

    pub fn hid_activation_failed_title(&self) -> (r: &'static str)
        ensures
            r@ == raw_text(self@, RawKey::HidActivationFailedTitle),
    {
        get_raw_translation(self.lang, RawKey::HidActivationFailedTitle)
    }

    pub fn hid_activation_error(&self) -> (r: &'static str)
        ensures
            r@ == raw_text(self@, RawKey::HidActivationError),
    {
        get_raw_translation(self.lang, RawKey::HidActivationError)
    }

    pub fn hid_activation_retry(&self) -> (r: &'static str)
        ensures
            r@ == raw_text(self@, RawKey::HidActivationRetry),
    {
        get_raw_translation(self.lang, RawKey::HidActivationRetry)
    }

    pub fn hid_activation_cancel(&self) -> (r: &'static str)
        ensures
            r@ == raw_text(self@, RawKey::HidActivationCancel),
    {
        get_raw_translation(self.lang, RawKey::HidActivationCancel)
    }

    pub fn mouse_move_direction_label(&self) -> (r: &'static str)
        ensures
            r@ == raw_text(self@, RawKey::MouseMoveDirectionLabel),
    {
        get_raw_translation(self.lang, RawKey::MouseMoveDirectionLabel)
    }

    pub fn mouse_move_up(&self) -> (r: &'static str)
        ensures
            r@ == raw_text(self@, RawKey::MouseMoveUp),
    {
        get_raw_translation(self.lang, RawKey::MouseMoveUp)
    }

    pub fn mouse_move_down(&self) -> (r: &'static str)
        ensures
            r@ == raw_text(self@, RawKey::MouseMoveDown),
    {
        get_raw_translation(self.lang, RawKey::MouseMoveDown)
    }

    pub fn mouse_move_left(&self) -> (r: &'static str)
        ensures
            r@ == raw_text(self@, RawKey::MouseMoveLeft),
    {
        get_raw_translation(self.lang, RawKey::MouseMoveLeft)
    }

    pub fn mouse_move_right(&self) -> (r: &'static str)
        ensures
            r@ == raw_text(self@, RawKey::MouseMoveRight),
    {
        get_raw_translation(self.lang, RawKey::MouseMoveRight)
    }

    pub fn mouse_move_up_left(&self) -> (r: &'static str)
        ensures
            r@ == raw_text(self@, RawKey::MouseMoveUpLeft),
    {
        get_raw_translation(self.lang, RawKey::MouseMoveUpLeft)
    }

    pub fn mouse_move_up_right(&self) -> (r: &'static str)
        ensures
            r@ == raw_text(self@, RawKey::MouseMoveUpRight),
    {
        get_raw_translation(self.lang, RawKey::MouseMoveUpRight)
    }

    pub fn mouse_move_down_left(&self) -> (r: &'static str)
        ensures
            r@ == raw_text(self@, RawKey::MouseMoveDownLeft),
    {
        get_raw_translation(self.lang, RawKey::MouseMoveDownLeft)
    }

    pub fn mouse_move_down_right(&self) -> (r: &'static str)
        ensures
            r@ == raw_text(self@, RawKey::MouseMoveDownRight),
    {
        get_raw_translation(self.lang, RawKey::MouseMoveDownRight)
    }

    pub fn set_mouse_direction_hover(&self) -> (r: &'static str)
        ensures
            r@ == raw_text(self@, RawKey::SetMouseDirectionHover),
    {
        get_raw_translation(self.lang, RawKey::SetMouseDirectionHover)
    }

    pub fn mouse_scroll_direction_label(&self) -> (r: &'static str)
        ensures
            r@ == raw_text(self@, RawKey::MouseScrollDirectionLabel),
    {
        get_raw_translation(self.lang, RawKey::MouseScrollDirectionLabel)
    }

    pub fn mouse_scroll_up(&self) -> (r: &'static str)
        ensures
            r@ == raw_text(self@, RawKey::MouseScrollUp),
    {
        get_raw_translation(self.lang, RawKey::MouseScrollUp)
    }

    pub fn mouse_scroll_down(&self) -> (r: &'static str)
        ensures
            r@ == raw_text(self@, RawKey::MouseScrollDown),
    {
        get_raw_translation(self.lang, RawKey::MouseScrollDown)
    }

    pub fn mouse_middle_button(&self) -> (r: &'static str)
        ensures
            r@ == raw_text(self@, RawKey::MouseMiddleButton),
    {
        get_raw_translation(self.lang, RawKey::MouseMiddleButton)
    }

    pub fn set_mouse_scroll_direction_hover(&self) -> (r: &'static str)
        ensures
            r@ == raw_text(self@, RawKey::SetMouseScrollDirectionHover),
    {
        get_raw_translation(self.lang, RawKey::SetMouseScrollDirectionHover)
    }

    pub fn speed_label(&self) -> (r: &'static str)
        ensures
            r@ == raw_text(self@, RawKey::SpeedLabel),
    {
        get_raw_translation(self.lang, RawKey::SpeedLabel)
    }

    pub fn rawinput_capture_mode_label(&self) -> (r: &'static str)
        ensures
            r@ == raw_text(self@, RawKey::RawInputCaptureModeLabel),
    {
        get_raw_translation(self.lang, RawKey::RawInputCaptureModeLabel)
    }

    pub fn xinput_capture_mode_label(&self) -> (r: &'static str)
        ensures
            r@ == raw_text(self@, RawKey::XInputCaptureModeLabel),
    {
        get_raw_translation(self.lang, RawKey::XInputCaptureModeLabel)
    }

    pub fn capture_mode_most_sustained(&self) -> (r: &'static str)
        ensures
            r@ == raw_text(self@, RawKey::CaptureModeMostSustained),
    {
        get_raw_translation(self.lang, RawKey::CaptureModeMostSustained)
    }

    pub fn capture_mode_adaptive_intelligent(&self) -> (r: &'static str)
        ensures
            r@ == raw_text(self@, RawKey::CaptureModeAdaptiveIntelligent),
    {
        get_raw_translation(self.lang, RawKey::CaptureModeAdaptiveIntelligent)
    }

    pub fn capture_mode_max_changed_bits(&self) -> (r: &'static str)
        ensures
            r@ == raw_text(self@, RawKey::CaptureModeMaxChangedBits),
    {
        get_raw_translation(self.lang, RawKey::CaptureModeMaxChangedBits)
    }

    pub fn capture_mode_max_set_bits(&self) -> (r: &'static str)
        ensures
            r@ == raw_text(self@, RawKey::CaptureModeMaxSetBits),
    {
        get_raw_translation(self.lang, RawKey::CaptureModeMaxSetBits)
    }

    pub fn capture_mode_last_stable(&self) -> (r: &'static str)
        ensures
            r@ == raw_text(self@, RawKey::CaptureModeLastStable),
    {
        get_raw_translation(self.lang, RawKey::CaptureModeLastStable)
    }

    pub fn capture_mode_diagonal_priority(&self) -> (r: &'static str)
        ensures
            r@ == raw_text(self@, RawKey::CaptureModeDiagonalPriority),
    {
        get_raw_translation(self.lang, RawKey::CaptureModeDiagonalPriority)
    }

    pub fn capture_mode_hat_switch_optimized(&self) -> (r: &'static str)
        ensures
            r@ == raw_text(self@, RawKey::CaptureModeHatSwitchOptimized),
    {
        get_raw_translation(self.lang, RawKey::CaptureModeHatSwitchOptimized)
    }

    pub fn capture_mode_analog_optimized(&self) -> (r: &'static str)
        ensures
            r@ == raw_text(self@, RawKey::CaptureModeAnalogOptimized),
    {
        get_raw_translation(self.lang, RawKey::CaptureModeAnalogOptimized)
    }

    pub fn add_target_key_hover(&self) -> (r: &'static str)
        ensures
            r@ == raw_text(self@, RawKey::AddTargetKeyHover),
    {
        get_raw_translation(self.lang, RawKey::AddTargetKeyHover)
    }

    pub fn add_sequence_key_hover(&self) -> (r: &'static str)
        ensures
            r@ == raw_text(self@, RawKey::AddSequenceKeyHover),
    {
        get_raw_translation(self.lang, RawKey::AddSequenceKeyHover)
    }

    pub fn clear_all_trigger_keys_hover(&self) -> (r: &'static str)
        ensures
            r@ == raw_text(self@, RawKey::ClearAllTriggerKeysHover),
    {
        get_raw_translation(self.lang, RawKey::ClearAllTriggerKeysHover)
    }

    pub fn clear_all_target_keys_hover(&self) -> (r: &'static str)
        ensures
            r@ == raw_text(self@, RawKey::ClearAllTargetKeysHover),
    {
        get_raw_translation(self.lang, RawKey::ClearAllTargetKeysHover)
    }

    pub fn diagonal_hint_title(&self) -> (r: &'static str)
        ensures
            r@ == raw_text(self@, RawKey::DiagonalHintTitle),
    {
        get_raw_translation(self.lang, RawKey::DiagonalHintTitle)
    }

    pub fn diagonal_hint(&self) -> (r: &'static str)
        ensures
            r@ == raw_text(self@, RawKey::DiagonalHint),
    {
        get_raw_translation(self.lang, RawKey::DiagonalHint)
    }

    pub fn trigger_mode_label(&self) -> (r: &'static str)
        ensures
            r@ == raw_text(self@, RawKey::TriggerModeLabel),
    {
        get_raw_translation(self.lang, RawKey::TriggerModeLabel)
    }

    pub fn trigger_mode_single(&self) -> (r: &'static str)
        ensures
            r@ == raw_text(self@, RawKey::TriggerModeSingle),
    {
        get_raw_translation(self.lang, RawKey::TriggerModeSingle)
    }

    pub fn trigger_mode_sequence(&self) -> (r: &'static str)
        ensures
            r@ == raw_text(self@, RawKey::TriggerModeSequence),
    {
        get_raw_translation(self.lang, RawKey::TriggerModeSequence)
    }

    pub fn trigger_mode_single_badge(&self) -> (r: &'static str)
        ensures
            r@ == raw_text(self@, RawKey::TriggerModeSingleBadge),
    {
        get_raw_translation(self.lang, RawKey::TriggerModeSingleBadge)
    }

    pub fn trigger_mode_sequence_badge(&self) -> (r: &'static str)
        ensures
            r@ == raw_text(self@, RawKey::TriggerModeSequenceBadge),
    {
        get_raw_translation(self.lang, RawKey::TriggerModeSequenceBadge)
    }

    pub fn sequence_trigger_explanation(&self) -> (r: &'static str)
        ensures
            r@ == raw_text(self@, RawKey::SequenceTriggerExplanation),
    {
        get_raw_translation(self.lang, RawKey::SequenceTriggerExplanation)
    }

    pub fn sequence_window_label(&self) -> (r: &'static str)
        ensures
            r@ == raw_text(self@, RawKey::SequenceWindowLabel),
    {
        get_raw_translation(self.lang, RawKey::SequenceWindowLabel)
    }

    pub fn sequence_window_hint(&self) -> (r: &'static str)
        ensures
            r@ == raw_text(self@, RawKey::SequenceWindowHint),
    {
        get_raw_translation(self.lang, RawKey::SequenceWindowHint)
    }

    pub fn sequence_capturing(&self) -> (r: &'static str)
        ensures
            r@ == raw_text(self@, RawKey::SequenceCapturing),
    {
        get_raw_translation(self.lang, RawKey::SequenceCapturing)
    }

    pub fn sequence_capture_hint(&self) -> (r: &'static str)
        ensures
            r@ == raw_text(self@, RawKey::SequenceCaptureHint),
    {
        get_raw_translation(self.lang, RawKey::SequenceCaptureHint)
    }

    pub fn sequence_complete(&self) -> (r: &'static str)
        ensures
            r@ == raw_text(self@, RawKey::SequenceComplete),
    {
        get_raw_translation(self.lang, RawKey::SequenceComplete)
    }

    pub fn sequence_clear_btn(&self) -> (r: &'static str)
        ensures
            r@ == raw_text(self@, RawKey::SequenceClearBtn),
    {
        get_raw_translation(self.lang, RawKey::SequenceClearBtn)
    }

    pub fn sequence_example_label(&self) -> (r: &'static str)
        ensures
            r@ == raw_text(self@, RawKey::SequenceExampleLabel),
    {
        get_raw_translation(self.lang, RawKey::SequenceExampleLabel)
    }

    pub fn target_mode_label(&self) -> (r: &'static str)
        ensures
            r@ == raw_text(self@, RawKey::TargetModeLabel),
    {
        get_raw_translation(self.lang, RawKey::TargetModeLabel)
    }

    pub fn target_mode_single(&self) -> (r: &'static str)
        ensures
            r@ == raw_text(self@, RawKey::TargetModeSingle),
    {
        get_raw_translation(self.lang, RawKey::TargetModeSingle)
    }

    pub fn target_mode_multi(&self) -> (r: &'static str)
        ensures
            r@ == raw_text(self@, RawKey::TargetModeMulti),
    {
        get_raw_translation(self.lang, RawKey::TargetModeMulti)
    }

    pub fn target_mode_sequence(&self) -> (r: &'static str)
        ensures
            r@ == raw_text(self@, RawKey::TargetModeSequence),
    {
        get_raw_translation(self.lang, RawKey::TargetModeSequence)
    }

    pub fn target_mode_single_badge(&self) -> (r: &'static str)
        ensures
            r@ == raw_text(self@, RawKey::TargetModeSingleBadge),
    {
        get_raw_translation(self.lang, RawKey::TargetModeSingleBadge)
    }

    pub fn target_mode_multi_badge(&self) -> (r: &'static str)
        ensures
            r@ == raw_text(self@, RawKey::TargetModeMultiBadge),
    {
        get_raw_translation(self.lang, RawKey::TargetModeMultiBadge)
    }

    pub fn target_mode_sequence_badge(&self) -> (r: &'static str)
        ensures
            r@ == raw_text(self@, RawKey::TargetModeSequenceBadge),
    {
        get_raw_translation(self.lang, RawKey::TargetModeSequenceBadge)
    }

    pub fn target_mode_multi_explanation(&self) -> (r: &'static str)
        ensures
            r@ == raw_text(self@, RawKey::TargetModeMultiExplanation),
    {
        get_raw_translation(self.lang, RawKey::TargetModeMultiExplanation)
    }

    pub fn target_mode_sequence_explanation(&self) -> (r: &'static str)
        ensures
            r@ == raw_text(self@, RawKey::TargetModeSequenceExplanation),
    {
        get_raw_translation(self.lang, RawKey::TargetModeSequenceExplanation)
    }

    pub fn target_sequence_output_hint(&self) -> (r: &'static str)
        ensures
            r@ == raw_text(self@, RawKey::TargetSequenceOutputHint),
    {
        get_raw_translation(self.lang, RawKey::TargetSequenceOutputHint)
    }

    pub fn devices_button(&self) -> (r: &'static str)
        ensures
            r@ == raw_text(self@, RawKey::DevicesBtn),
    {
        get_raw_translation(self.lang, RawKey::DevicesBtn)
    }

    pub fn device_manager_title(&self) -> (r: &'static str)
        ensures
            r@ == raw_text(self@, RawKey::DeviceManagerTitle),
    {
        get_raw_translation(self.lang, RawKey::DeviceManagerTitle)
    }

    pub fn connected_devices_title(&self) -> (r: &'static str)
        ensures
            r@ == raw_text(self@, RawKey::ConnectedDevicesTitle),
    {
        get_raw_translation(self.lang, RawKey::ConnectedDevicesTitle)
    }

    pub fn refresh_button(&self) -> (r: &'static str)
        ensures
            r@ == raw_text(self@, RawKey::RefreshBtn),
    {
        get_raw_translation(self.lang, RawKey::RefreshBtn)
    }

    pub fn xinput_controllers_title(&self) -> (r: &'static str)
        ensures
            r@ == raw_text(self@, RawKey::XInputControllersTitle),
    {
        get_raw_translation(self.lang, RawKey::XInputControllersTitle)
    }

    pub fn no_controllers_connected(&self) -> (r: &'static str)
        ensures
            r@ == raw_text(self@, RawKey::NoControllersConnected),
    {
        get_raw_translation(self.lang, RawKey::NoControllersConnected)
    }

    pub fn hid_devices_title(&self) -> (r: &'static str)
        ensures
            r@ == raw_text(self@, RawKey::HidDevicesTitle),
    {
        get_raw_translation(self.lang, RawKey::HidDevicesTitle)
    }

    pub fn no_hid_devices_detected(&self) -> (r: &'static str)
        ensures
            r@ == raw_text(self@, RawKey::NoHidDevicesDetected),
    {
        get_raw_translation(self.lang, RawKey::NoHidDevicesDetected)
    }

    pub fn slot_label(&self) -> (r: &'static str)
        ensures
            r@ == raw_text(self@, RawKey::SlotLabel),
    {
        get_raw_translation(self.lang, RawKey::SlotLabel)
    }

    pub fn hide_button(&self) -> (r: &'static str)
        ensures
            r@ == raw_text(self@, RawKey::HideBtn),
    {
        get_raw_translation(self.lang, RawKey::HideBtn)
    }

    pub fn device_settings_button(&self) -> (r: &'static str)
        ensures
            r@ == raw_text(self@, RawKey::DeviceSettingsBtn),
    {
        get_raw_translation(self.lang, RawKey::DeviceSettingsBtn)
    }

    pub fn vibration_control_title(&self) -> (r: &'static str)
        ensures
            r@ == raw_text(self@, RawKey::VibrationControlTitle),
    {
        get_raw_translation(self.lang, RawKey::VibrationControlTitle)
    }

    pub fn left_motor_label(&self) -> (r: &'static str)
        ensures
            r@ == raw_text(self@, RawKey::LeftMotorLabel),
    {
        get_raw_translation(self.lang, RawKey::LeftMotorLabel)
    }

    pub fn right_motor_label(&self) -> (r: &'static str)
        ensures
            r@ == raw_text(self@, RawKey::RightMotorLabel),
    {
        get_raw_translation(self.lang, RawKey::RightMotorLabel)
    }

    pub fn power_label(&self) -> (r: &'static str)
        ensures
            r@ == raw_text(self@, RawKey::PowerLabel),
    {
        get_raw_translation(self.lang, RawKey::PowerLabel)
    }

    pub fn test_vibration_button(&self) -> (r: &'static str)
        ensures
            r@ == raw_text(self@, RawKey::TestVibrationBtn),
    {
        get_raw_translation(self.lang, RawKey::TestVibrationBtn)
    }

    pub fn stop_vibration_button(&self) -> (r: &'static str)
        ensures
            r@ == raw_text(self@, RawKey::StopVibrationBtn),
    {
        get_raw_translation(self.lang, RawKey::StopVibrationBtn)
    }

    pub fn deadzone_settings_title(&self) -> (r: &'static str)
        ensures
            r@ == raw_text(self@, RawKey::DeadzoneSettingsTitle),
    {
        get_raw_translation(self.lang, RawKey::DeadzoneSettingsTitle)
    }

    pub fn stick_label(&self) -> (r: &'static str)
        ensures
            r@ == raw_text(self@, RawKey::StickLabel),
    {
        get_raw_translation(self.lang, RawKey::StickLabel)
    }

    pub fn trigger_label_short(&self) -> (r: &'static str)
        ensures
            r@ == raw_text(self@, RawKey::TriggerLabelShort),
    {
        get_raw_translation(self.lang, RawKey::TriggerLabelShort)
    }

    pub fn threshold_label(&self) -> (r: &'static str)
        ensures
            r@ == raw_text(self@, RawKey::ThresholdLabel),
    {
        get_raw_translation(self.lang, RawKey::ThresholdLabel)
    }

    pub fn device_manager_close_button(&self) -> (r: &'static str)
        ensures
            r@ == raw_text(self@, RawKey::Close),
    {
        get_raw_translation(self.lang, RawKey::Close)
    }

    pub fn preferred_api_label(&self) -> (r: &'static str)
        ensures
            r@ == raw_text(self@, RawKey::PreferredApiLabel),
    {
        get_raw_translation(self.lang, RawKey::PreferredApiLabel)
    }

    pub fn api_auto(&self) -> (r: &'static str)
        ensures
            r@ == raw_text(self@, RawKey::ApiAuto),
    {
        get_raw_translation(self.lang, RawKey::ApiAuto)
    }

    pub fn api_xinput(&self) -> (r: &'static str)
        ensures
            r@ == raw_text(self@, RawKey::ApiXInput),
    {
        get_raw_translation(self.lang, RawKey::ApiXInput)
    }

    pub fn api_rawinput(&self) -> (r: &'static str)
        ensures
            r@ == raw_text(self@, RawKey::ApiRawInput),
    {
        get_raw_translation(self.lang, RawKey::ApiRawInput)
    }

    pub fn reactivate_button(&self) -> (r: &'static str)
        ensures
            r@ == raw_text(self@, RawKey::ReactivateBtn),
    {
        get_raw_translation(self.lang, RawKey::ReactivateBtn)
    }

    pub fn all_devices_filter(&self) -> (r: &'static str)
        ensures
            r@ == raw_text(self@, RawKey::AllDevicesFilter),
    {
        get_raw_translation(self.lang, RawKey::AllDevicesFilter)
    }

    pub fn game_devices_only_filter(&self) -> (r: &'static str)
        ensures
            r@ == raw_text(self@, RawKey::GameDevicesOnlyFilter),
    {
        get_raw_translation(self.lang, RawKey::GameDevicesOnlyFilter)
    }

    pub fn no_game_devices_detected(&self) -> (r: &'static str)
        ensures
            r@ == raw_text(self@, RawKey::NoGameDevicesDetected),
    {
        get_raw_translation(self.lang, RawKey::NoGameDevicesDetected)
    }

    pub fn running_status(&self) -> (r: &'static str)
        ensures
            r@ == raw_text(self@, RawKey::Running),
    {
        get_raw_translation(self.lang, RawKey::Running)
    }

    pub fn pause_button(&self) -> (r: &'static str)
        ensures
            r@ == raw_text(self@, RawKey::PauseBtn),
    {
        get_raw_translation(self.lang, RawKey::PauseBtn)
    }

    pub fn start_button(&self) -> (r: &'static str)
        ensures
            r@ == raw_text(self@, RawKey::StartBtn),
    {
        get_raw_translation(self.lang, RawKey::StartBtn)
    }

    pub fn exit_button(&self) -> (r: &'static str)
        ensures
            r@ == raw_text(self@, RawKey::ExitBtn),
    {
        get_raw_translation(self.lang, RawKey::ExitBtn)
    }

    pub fn input_timeout_display(&self) -> (r: &'static str)
        ensures
            r@ == raw_text(self@, RawKey::InputTimeoutDisplay),
    {
        get_raw_translation(self.lang, RawKey::InputTimeoutDisplay)
    }

    pub fn default_interval_display(&self) -> (r: &'static str)
        ensures
            r@ == raw_text(self@, RawKey::DefaultIntervalDisplay),
    {
        get_raw_translation(self.lang, RawKey::DefaultIntervalDisplay)
    }

    pub fn default_duration_display(&self) -> (r: &'static str)
        ensures
            r@ == raw_text(self@, RawKey::DefaultDurationDisplay),
    {
        get_raw_translation(self.lang, RawKey::DefaultDurationDisplay)
    }

    pub fn show_tray_icon_display(&self) -> (r: &'static str)
        ensures
            r@ == raw_text(self@, RawKey::ShowTrayIconDisplay),
    {
        get_raw_translation(self.lang, RawKey::ShowTrayIconDisplay)
    }

    pub fn show_notifications_display(&self) -> (r: &'static str)
        ensures
            r@ == raw_text(self@, RawKey::ShowNotificationsDisplay),
    {
        get_raw_translation(self.lang, RawKey::ShowNotificationsDisplay)
    }

    pub fn always_on_top_display(&self) -> (r: &'static str)
        ensures
            r@ == raw_text(self@, RawKey::AlwaysOnTopDisplay),
    {
        get_raw_translation(self.lang, RawKey::AlwaysOnTopDisplay)
    }

    pub fn yes(&self) -> (r: &'static str)
        ensures
            r@ == raw_text(self@, RawKey::Yes),
    {
        get_raw_translation(self.lang, RawKey::Yes)
    }

    pub fn no(&self) -> (r: &'static str)
        ensures
            r@ == raw_text(self@, RawKey::No),
    {
        get_raw_translation(self.lang, RawKey::No)
    }

    pub fn worker_count_label(&self) -> (r: &'static str)
        ensures
            r@ == raw_text(self@, RawKey::WorkerCountLabel),
    {
        get_raw_translation(self.lang, RawKey::WorkerCountLabel)
    }

    pub fn trigger_short(&self) -> (r: &'static str)
        ensures
            r@ == raw_text(self@, RawKey::TriggerShort),
    {
        get_raw_translation(self.lang, RawKey::TriggerShort)
    }

    pub fn target_short(&self) -> (r: &'static str)
        ensures
            r@ == raw_text(self@, RawKey::TargetShort),
    {
        get_raw_translation(self.lang, RawKey::TargetShort)
    }

    pub fn interval_short(&self) -> (r: &'static str)
        ensures
            r@ == raw_text(self@, RawKey::IntShort),
    {
        get_raw_translation(self.lang, RawKey::IntShort)
    }

    pub fn duration_short(&self) -> (r: &'static str)
        ensures
            r@ == raw_text(self@, RawKey::DurShort),
    {
        get_raw_translation(self.lang, RawKey::DurShort)
    }

    pub fn add_new_mapping_title(&self) -> (r: &'static str)
        ensures
            r@ == raw_text(self@, RawKey::AddNewMappingTitle),
    {
        get_raw_translation(self.lang, RawKey::AddNewMappingTitle)
    }

    pub fn add_button_text(&self) -> (r: &'static str)
        ensures
            r@ == raw_text(self@, RawKey::AddBtn),
    {
        get_raw_translation(self.lang, RawKey::AddBtn)
    }

    pub fn process_whitelist_hint(&self) -> (r: &'static str)
        ensures
            r@ == raw_text(self@, RawKey::ProcessWhitelistHint),
    {
        get_raw_translation(self.lang, RawKey::ProcessWhitelistHint)
    }

    pub fn process_example(&self) -> (r: &'static str)
        ensures
            r@ == raw_text(self@, RawKey::ProcessExample),
    {
        get_raw_translation(self.lang, RawKey::ProcessExample)
    }

    pub fn browse_button(&self) -> (r: &'static str)
        ensures
            r@ == raw_text(self@, RawKey::BrowseBtn),
    {
        get_raw_translation(self.lang, RawKey::BrowseBtn)
    }

    pub fn changes_take_effect_hint(&self) -> (r: &'static str)
        ensures
            r@ == raw_text(self@, RawKey::ChangesTakeEffect),
    {
        get_raw_translation(self.lang, RawKey::ChangesTakeEffect)
    }

    pub fn tray_activate(&self) -> (r: &'static str)
        ensures
            r@ == raw_text(self@, RawKey::TrayActivate),
    {
        get_raw_translation(self.lang, RawKey::TrayActivate)
    }

    pub fn tray_pause(&self) -> (r: &'static str)
        ensures
            r@ == raw_text(self@, RawKey::TrayPause),
    {
        get_raw_translation(self.lang, RawKey::TrayPause)
    }

    pub fn tray_show_window(&self) -> (r: &'static str)
        ensures
            r@ == raw_text(self@, RawKey::TrayShowWindow),
    {
        get_raw_translation(self.lang, RawKey::TrayShowWindow)
    }

    pub fn tray_about(&self) -> (r: &'static str)
        ensures
            r@ == raw_text(self@, RawKey::TrayAbout),
    {
        get_raw_translation(self.lang, RawKey::TrayAbout)
    }

    pub fn tray_exit(&self) -> (r: &'static str)
        ensures
            r@ == raw_text(self@, RawKey::TrayExit),
    {
        get_raw_translation(self.lang, RawKey::TrayExit)
    }

    pub fn tray_notification_launched(&self) -> (r: &'static str)
        ensures
            r@ == raw_text(self@, RawKey::TrayNotificationLaunched),
    {
        get_raw_translation(self.lang, RawKey::TrayNotificationLaunched)
    }

    pub fn tray_notification_activated(&self) -> (r: &'static str)
        ensures
            r@ == raw_text(self@, RawKey::TrayNotificationActivated),
    {
        get_raw_translation(self.lang, RawKey::TrayNotificationActivated)
    }

    pub fn tray_notification_paused(&self) -> (r: &'static str)
        ensures
            r@ == raw_text(self@, RawKey::TrayNotificationPaused),
    {
        get_raw_translation(self.lang, RawKey::TrayNotificationPaused)
    }

    pub fn sequence_icon(&self) -> (r: &'static str)
        ensures
            r@ == raw_text(self@, RawKey::SequenceIcon),
    {
        get_raw_translation(self.lang, RawKey::SequenceIcon)
    }

    pub fn target_icon(&self) -> (r: &'static str)
        ensures
            r@ == raw_text(self@, RawKey::TargetIcon),
    {
        get_raw_translation(self.lang, RawKey::TargetIcon)
    }

    pub fn arrow_icon(&self) -> (r: &'static str)
        ensures
            r@ == raw_text(self@, RawKey::ArrowIcon),
    {
        get_raw_translation(self.lang, RawKey::ArrowIcon)
    }

    pub fn delete_icon(&self) -> (r: &'static str)
        ensures
            r@ == raw_text(self@, RawKey::DeleteIcon),
    {
        get_raw_translation(self.lang, RawKey::DeleteIcon)
    }

    pub fn keys_text(&self) -> (r: &'static str)
        ensures
            r@ == raw_text(self@, RawKey::KeysText),
    {
        get_raw_translation(self.lang, RawKey::KeysText)
    }

    pub fn targets_text(&self) -> (r: &'static str)
        ensures
            r@ == raw_text(self@, RawKey::TargetsText),
    {
        get_raw_translation(self.lang, RawKey::TargetsText)
    }

    pub fn rule_props_button(&self) -> (r: &'static str)
        ensures
            r@ == raw_text(self@, RawKey::RulePropsButton),
    {
        get_raw_translation(self.lang, RawKey::RulePropsButton)
    }

    pub fn rule_props_dialog_title(&self) -> (r: &'static str)
        ensures
            r@ == raw_text(self@, RawKey::RulePropsDialogTitle),
    {
        get_raw_translation(self.lang, RawKey::RulePropsDialogTitle)
    }

    pub fn rule_props_hint(&self) -> (r: &'static str)
        ensures
            r@ == raw_text(self@, RawKey::RulePropsHint),
    {
        get_raw_translation(self.lang, RawKey::RulePropsHint)
    }

    pub fn rule_props_hold_column(&self) -> (r: &'static str)
        ensures
            r@ == raw_text(self@, RawKey::RulePropsHoldColumn),
    {
        get_raw_translation(self.lang, RawKey::RulePropsHoldColumn)
    }

    pub fn rule_props_append_label(&self) -> (r: &'static str)
        ensures
            r@ == raw_text(self@, RawKey::RulePropsAppendLabel),
    {
        get_raw_translation(self.lang, RawKey::RulePropsAppendLabel)
    }

    pub fn rule_props_add_append(&self) -> (r: &'static str)
        ensures
            r@ == raw_text(self@, RawKey::RulePropsAddAppend),
    {
        get_raw_translation(self.lang, RawKey::RulePropsAddAppend)
    }

    pub fn rule_props_append_placeholder(&self) -> (r: &'static str)
        ensures
            r@ == raw_text(self@, RawKey::RulePropsAppendPlaceholder),
    {
        get_raw_translation(self.lang, RawKey::RulePropsAppendPlaceholder)
    }

    pub fn rule_props_save(&self) -> (r: &'static str)
        ensures
            r@ == raw_text(self@, RawKey::RulePropsSave),
    {
        get_raw_translation(self.lang, RawKey::RulePropsSave)
    }

    pub fn rule_props_cancel(&self) -> (r: &'static str)
        ensures
            r@ == raw_text(self@, RawKey::RulePropsCancel),
    {
        get_raw_translation(self.lang, RawKey::RulePropsCancel)
    }

    pub fn preset_title(&self) -> (r: &'static str)
        ensures
            r@ == raw_text(self@, RawKey::PresetTitle),
    {
        get_raw_translation(self.lang, RawKey::PresetTitle)
    }

    pub fn preset_save_btn(&self) -> (r: &'static str)
        ensures
            r@ == raw_text(self@, RawKey::PresetSaveBtn),
    {
        get_raw_translation(self.lang, RawKey::PresetSaveBtn)
    }

    pub fn preset_delete_btn(&self) -> (r: &'static str)
        ensures
            r@ == raw_text(self@, RawKey::PresetDeleteBtn),
    {
        get_raw_translation(self.lang, RawKey::PresetDeleteBtn)
    }

    pub fn preset_rename_btn(&self) -> (r: &'static str)
        ensures
            r@ == raw_text(self@, RawKey::PresetRenameBtn),
    {
        get_raw_translation(self.lang, RawKey::PresetRenameBtn)
    }

    pub fn preset_name_hint(&self) -> (r: &'static str)
        ensures
            r@ == raw_text(self@, RawKey::PresetNameHint),
    {
        get_raw_translation(self.lang, RawKey::PresetNameHint)
    }

    pub fn no_preset(&self) -> (r: &'static str)
        ensures
            r@ == raw_text(self@, RawKey::NoPreset),
    {
        get_raw_translation(self.lang, RawKey::NoPreset)
    }

    pub fn note_label(&self) -> (r: &'static str)
        ensures
            r@ == raw_text(self@, RawKey::NoteLabel),
    {
        get_raw_translation(self.lang, RawKey::NoteLabel)
    }

    pub fn note_hint(&self) -> (r: &'static str)
        ensures
            r@ == raw_text(self@, RawKey::NoteHint),
    {
        get_raw_translation(self.lang, RawKey::NoteHint)
    }

    /// The version line of the about dialog.
    pub fn about_version(&self) -> (r: &'static str)
        ensures
            r@ == "✨ Version 0.1.0"@,
    {
        "✨ Version 0.1.0"
    }

    /// The license name, the same in every language.
    pub fn about_mit_license(&self) -> (r: &'static str)
        ensures
            r@ == "MIT License"@,
    {
        "MIT License"
    }

    /// The toolkit names, the same in every language.
    pub fn about_rust_egui(&self) -> (r: &'static str)
        ensures
            r@ == "Rust + egui"@,
    {
        "Rust + egui"
    }

    /// The worker count label followed by a space and the count.
    pub fn format_worker_count(&self, count: usize) -> (r: String)
        ensures
            r@ == raw_text(self@, RawKey::WorkerCountLabel) + seq![' '] + decimal(count as nat),
    {
        let mut s = String::new();
        push_str(&mut s, get_raw_translation(self.lang, RawKey::WorkerCountLabel));
        push_char(&mut s, ' ');
        push_decimal(&mut s, count as u64);
        assert(s@ =~= raw_text(self@, RawKey::WorkerCountLabel) + seq![' '] + decimal(count as nat));
        s
    }

    /// The count, a space, and the localized word for keys.
    pub fn format_keys_count(&self, count: usize) -> (r: String)
        ensures
            r@ == decimal(count as nat) + seq![' '] + raw_text(self@, RawKey::KeysText),
    {
        let mut s = String::new();
        push_decimal(&mut s, count as u64);
        push_char(&mut s, ' ');
        push_str(&mut s, get_raw_translation(self.lang, RawKey::KeysText));
        assert(s@ =~= decimal(count as nat) + seq![' '] + raw_text(self@, RawKey::KeysText));
        s
    }

    /// The count, a space, and the localized word for targets.
    pub fn format_targets_count(&self, count: usize) -> (r: String)
        ensures
            r@ == decimal(count as nat) + seq![' '] + raw_text(self@, RawKey::TargetsText),
    {
        let mut s = String::new();
        push_decimal(&mut s, count as u64);
        push_char(&mut s, ' ');
        push_str(&mut s, get_raw_translation(self.lang, RawKey::TargetsText));
        assert(s@ =~= decimal(count as nat) + seq![' '] + raw_text(self@, RawKey::TargetsText));
        s
    }
}

} // verus!
