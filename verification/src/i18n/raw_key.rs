//! Keys of the translation tables and the lookup of a text by language
//! and key.

use vstd::prelude::*;

use super::Language;
use super::en::{en_raw, en_text};
use super::ja::{ja_raw, ja_text};
use super::ko::{ko_raw, ko_text};
use super::zh_cn::{zh_cn_raw, zh_cn_text};
use super::zh_tw::{zh_tw_raw, zh_tw_text};

verus! {

/// Identifies one text of the user interface.
#[derive(Debug, Clone, Copy, PartialEq, Eq)]
pub enum RawKey {
    AppTitle,
    SettingsBtn,
    AboutBtn,
    Dark,
    Light,
    StatusTitle,
    Paused,
    Running,
    PauseBtn,
    StartBtn,
    ExitBtn,
    HotkeySettingsTitle,
    ToggleKeyLabel,
    ClickToSet,
    ConfigSettingsTitle,
    InputTimeoutDisplay,
    DefaultIntervalDisplay,
    DefaultDurationDisplay,
    ShowTrayIconDisplay,
    ShowNotificationsDisplay,
    AlwaysOnTopDisplay,
    Yes,
    No,
    KeyMappingsTitle,
    SettingsDialogTitle,
    Language,
    DarkMode,
    AlwaysOnTop,
    ShowTrayIcon,
    ShowNotifications,
    ToggleKeySection,
    SequenceFinalizeRowLabel,
    SequenceFinalizeHint,
    PressAnyKey,
    ClickToSetTrigger,
    ClickToSetTarget,
    GlobalConfigTitle,
    InputTimeoutLabel,
    DefaultIntervalLabel,
    DefaultDurationLabel,
    MouseMovePerEventMinLabel,
    MouseMovePerEventMinHint,
    MouseMoveMinTriggerLabel,
    MouseMoveMinTriggerHint,
    MouseMoveRearmLabel,
    MouseMoveRearmHint,
    WorkerCountLabel,
    TriggerShort,
    TargetShort,
    IntShort,
    DurShort,
    AddNewMappingTitle,
    AddBtn,
    ProcessWhitelistHint,
    ProcessExample,
    BrowseBtn,
    SaveChangesBtn,
    CancelSettingsBtn,
    ChangesTakeEffect,
    CloseWindowTitle,
    CloseSubtitle,
    MinimizeToTrayBtn,
    ExitProgramBtn,
    CancelCloseBtn,
    ErrorTitle,
    Close,
    DuplicateTriggerError,
    DuplicateProcessError,
    AboutDescriptionLine1,
    AboutDescriptionLine2,
    Author,
    GitHub,
    License,
    BuiltWith,
    AboutInspired,
    TurboOnHover,
    TurboOffHover,
    HidActivationTitle,
    HidActivationPressPrompt,
    HidActivationReleasePrompt,
    HidActivationWarningTitle,
    HidActivationWarning1,
    HidActivationWarning2,
    HidActivationWarning3,
    HidActivationSuccessTitle,
    HidActivationSuccessMessage,
    HidActivationSuccessHint,
    HidActivationAutoClose,
    HidActivationFailedTitle,
    HidActivationError,
    HidActivationRetry,
    HidActivationCancel,
    MouseMoveDirectionLabel,
    MouseMoveUp,
    MouseMoveDown,
    MouseMoveLeft,
    MouseMoveRight,
    MouseMoveUpLeft,
    MouseMoveUpRight,
    MouseMoveDownLeft,
    MouseMoveDownRight,
    SetMouseDirectionHover,
    MouseScrollDirectionLabel,
    MouseScrollUp,
    MouseScrollDown,
    MouseMiddleButton,
    SetMouseScrollDirectionHover,
    SpeedLabel,
    RawInputCaptureModeLabel,
    XInputCaptureModeLabel,
    CaptureModeMostSustained,
    CaptureModeAdaptiveIntelligent,
    CaptureModeMaxChangedBits,
    CaptureModeMaxSetBits,
    CaptureModeLastStable,
    CaptureModeHatSwitchOptimized,
    CaptureModeAnalogOptimized,
    CaptureModeDiagonalPriority,
    AddTargetKeyHover,
    AddSequenceKeyHover,
    ClearAllTriggerKeysHover,
    ClearAllTargetKeysHover,
    DiagonalHintTitle,
    DiagonalHint,
    TriggerModeLabel,
    TriggerModeSingle,
    TriggerModeSequence,
    TriggerModeSingleBadge,
    TriggerModeSequenceBadge,
    SequenceTriggerExplanation,
    SequenceWindowLabel,
    SequenceWindowHint,
    SequenceCapturing,
    SequenceCaptureHint,
    SequenceComplete,
    SequenceClearBtn,
    SequenceExampleLabel,
    TargetModeLabel,
    TargetModeSingle,
    TargetModeMulti,
    TargetModeSequence,
    TargetModeSingleBadge,
    TargetModeMultiBadge,
    TargetModeSequenceBadge,
    TargetModeMultiExplanation,
    TargetModeSequenceExplanation,
    TargetSequenceOutputHint,
    DevicesBtn,
    DeviceManagerTitle,
    ConnectedDevicesTitle,
    RefreshBtn,
    XInputControllersTitle,
    NoControllersConnected,
    HidDevicesTitle,
    NoHidDevicesDetected,
    SlotLabel,
    HideBtn,
    DeviceSettingsBtn,
    VibrationControlTitle,
    LeftMotorLabel,
    RightMotorLabel,
    PowerLabel,
    TestVibrationBtn,
    StopVibrationBtn,
    DeadzoneSettingsTitle,
    StickLabel,
    TriggerLabelShort,
    ThresholdLabel,
    PreferredApiLabel,
    ApiAuto,
    ApiXInput,
    ApiRawInput,
    ReactivateBtn,
    AllDevicesFilter,
    GameDevicesOnlyFilter,
    NoGameDevicesDetected,
    TrayActivate,
    TrayPause,
    TrayShowWindow,
    TrayAbout,
    TrayExit,
    TrayNotificationLaunched,
    TrayNotificationActivated,
    TrayNotificationPaused,
    SequenceIcon,
    TargetIcon,
    ArrowIcon,
    DeleteIcon,
    KeysText,
    TargetsText,
    RulePropsButton,
    RulePropsDialogTitle,
    RulePropsHint,
    RulePropsHoldColumn,
    RulePropsAppendLabel,
    RulePropsAddAppend,
    RulePropsAppendPlaceholder,
    RulePropsSave,
    RulePropsCancel,
    PresetTitle,
    PresetSaveBtn,
    PresetDeleteBtn,
    PresetRenameBtn,
    PresetNameHint,
    NoPreset,
    NoteLabel,
    NoteHint,
}

/// The text for `key` in the table of `lang`.
pub open spec fn raw_text(lang: Language, key: RawKey) -> Seq<char> {
    match lang {
        Language::English => en_text(key),
        Language::SimplifiedChinese => zh_cn_text(key),
        Language::TraditionalChinese => zh_tw_text(key),
        Language::Japanese => ja_text(key),
        Language::Korean => ko_text(key),
    }
}

/// Each language reads its own table: for every key, the text of a
/// language is that language's entry.
pub proof fn lemma_lookup_reads_own_table(key: RawKey)
    ensures
        raw_text(Language::English, key) == en_text(key),
        raw_text(Language::SimplifiedChinese, key) == zh_cn_text(key),
        raw_text(Language::TraditionalChinese, key) == zh_tw_text(key),
        raw_text(Language::Japanese, key) == ja_text(key),
        raw_text(Language::Korean, key) == ko_text(key),
{
}

/// No two languages share a table: for any two different languages the
/// status title differs (for example `ステータス` in Japanese, `상태` in
/// Korean), and so do the paused and running texts.
pub proof fn lemma_languages_differ(a: Language, b: Language)
    requires
        a != b,
    ensures
        raw_text(a, RawKey::StatusTitle) != raw_text(b, RawKey::StatusTitle),
        raw_text(a, RawKey::Paused) != raw_text(b, RawKey::Paused),
        raw_text(a, RawKey::Running) != raw_text(b, RawKey::Running),
{
    reveal_strlit("Status");
    reveal_strlit("状态");
    reveal_strlit("狀態");
    reveal_strlit("ステータス");
    reveal_strlit("상태");
    reveal_strlit("Paused");
    reveal_strlit("已暂停");
    reveal_strlit("已暫停");
    reveal_strlit("一時停止中");
    reveal_strlit("일시 정지됨");
    reveal_strlit("Running");
    reveal_strlit("运行中");
    reveal_strlit("執行中");
    reveal_strlit("実行中");
    reveal_strlit("실행 중");
    let ta = raw_text(a, RawKey::StatusTitle);
    let tb = raw_text(b, RawKey::StatusTitle);
    if ta == tb {
        assert(ta.len() == tb.len());
        assert(ta[0] == tb[0]);
    }
    let pa = raw_text(a, RawKey::Paused);
    let pb = raw_text(b, RawKey::Paused);
    if pa == pb {
        assert(pa.len() == pb.len());
        assert(pa[0] == pb[0]);
        assert(pa[1] == pb[1]);
    }
    let ra = raw_text(a, RawKey::Running);
    let rb = raw_text(b, RawKey::Running);
    if ra == rb {
        assert(ra.len() == rb.len());
        assert(ra[0] == rb[0]);
    }
}

/// Looks up the text for `key` in the table of `lang`.
pub fn get_raw_translation(lang: Language, key: RawKey) -> (s: &'static str)
    ensures
        s@ == raw_text(lang, key),
{
    match lang {
        Language::English => en_raw(key),
        Language::SimplifiedChinese => zh_cn_raw(key),
        Language::TraditionalChinese => zh_tw_raw(key),
        Language::Japanese => ja_raw(key),
        Language::Korean => ko_raw(key),
    }
}

} // verus!
