//! Traditional Chinese user interface texts.

use vstd::prelude::*;

use super::raw_key::RawKey;

verus! {

/// The Traditional Chinese text for each key.
pub open spec fn zh_tw_text(key: RawKey) -> Seq<char> {
    match key {
        RawKey::AppTitle => "Sorahk"@,
        RawKey::SettingsBtn => "⚙ 設定"@,
        RawKey::AboutBtn => "❓ 關於"@,
        RawKey::Dark => "🌙 深色"@,
        RawKey::Light => "☀ 淺色"@,
        RawKey::StatusTitle => "狀態"@,
        RawKey::Paused => "已暫停"@,
        RawKey::Running => "執行中"@,
        RawKey::PauseBtn => "⏸ 暫停"@,
        RawKey::StartBtn => "▶ 啟動"@,
        RawKey::ExitBtn => "✖ 結束"@,
        RawKey::HotkeySettingsTitle => "快捷鍵設定"@,
        RawKey::ToggleKeyLabel => "切換鍵："@,
        RawKey::ClickToSet => "點擊設定"@,
        RawKey::ConfigSettingsTitle => "設定檔"@,
        RawKey::InputTimeoutDisplay => "輸入逾時："@,
        RawKey::DefaultIntervalDisplay => "預設間隔："@,
        RawKey::DefaultDurationDisplay => "預設持續時間："@,
        RawKey::ShowTrayIconDisplay => "顯示托盤圖示："@,
        RawKey::ShowNotificationsDisplay => "顯示通知："@,
        RawKey::AlwaysOnTopDisplay => "視窗置頂："@,
        RawKey::Yes => "是"@,
        RawKey::No => "否"@,
        RawKey::KeyMappingsTitle => "按鍵映射"@,
        RawKey::SettingsDialogTitle => "設定"@,
        RawKey::Language => "語言："@,
        RawKey::DarkMode => "深色模式："@,
        RawKey::AlwaysOnTop => "視窗置頂："@,
        RawKey::ShowTrayIcon => "顯示托盤圖示："@,
        RawKey::ShowNotifications => "顯示通知："@,
        RawKey::ToggleKeySection => "快捷鍵"@,
        RawKey::SequenceFinalizeRowLabel => "結束序列鍵："@,
        RawKey::SequenceFinalizeHint => "錄製序列時按下此鍵結束錄製，該鍵本身不會被記錄。"@,
        RawKey::PressAnyKey => "請按任意鍵..."@,
        RawKey::ClickToSetTrigger => "點擊設定觸發鍵"@,
        RawKey::ClickToSetTarget => "點擊設定目標鍵"@,
        RawKey::GlobalConfigTitle => "全域設定"@,
        RawKey::InputTimeoutLabel => "輸入逾時（毫秒）："@,
        RawKey::DefaultIntervalLabel => "預設間隔（毫秒）："@,
        RawKey::DefaultDurationLabel => "預設持續時間（毫秒）："@,
        RawKey::MouseMovePerEventMinLabel => "滑鼠移動雜訊門檻（像素）："@,
        RawKey::MouseMovePerEventMinHint => "小於此距離的滑鼠事件將被忽略。"@,
        RawKey::MouseMoveMinTriggerLabel => "滑鼠移動觸發距離（像素）："@,
        RawKey::MouseMoveMinTriggerHint => "觸發方向所需的累計移動距離。"@,
        RawKey::MouseMoveRearmLabel => "滑鼠移動重置距離（像素）："@,
        RawKey::MouseMoveRearmHint => "同一方向再次觸發前所需的反向移動距離。"@,
        RawKey::WorkerCountLabel => "工作執行緒數："@,
        RawKey::TriggerShort => "觸發"@,
        RawKey::TargetShort => "目標"@,
        RawKey::IntShort => "間隔"@,
        RawKey::DurShort => "時長"@,
        RawKey::AddNewMappingTitle => "新增映射"@,
        RawKey::AddBtn => "➕ 新增"@,
        RawKey::ProcessWhitelistHint => "程序白名單（空白表示所有程序）："@,
        RawKey::ProcessExample => "例如 notepad.exe"@,
        RawKey::BrowseBtn => "📂 瀏覽"@,
        RawKey::SaveChangesBtn => "💾 儲存變更"@,
        RawKey::CancelSettingsBtn => "取消"@,
        RawKey::ChangesTakeEffect => "儲存後變更生效。"@,
        RawKey::CloseWindowTitle => "關閉視窗"@,
        RawKey::CloseSubtitle => "您想要做什麼？"@,
        RawKey::MinimizeToTrayBtn => "最小化到托盤"@,
        RawKey::ExitProgramBtn => "結束程式"@,
        RawKey::CancelCloseBtn => "取消"@,
        RawKey::ErrorTitle => "錯誤"@,
        RawKey::Close => "關閉"@,
        RawKey::DuplicateTriggerError => "該觸發鍵已存在映射。"@,
        RawKey::DuplicateProcessError => "該程序已在白名單中。"@,
        RawKey::AboutDescriptionLine1 => "一款輕量級的自動按鍵工具。"@,
        RawKey::AboutDescriptionLine2 => "集連發、序列與裝置輸入於一體。"@,
        RawKey::Author => "作者："@,
        RawKey::GitHub => "GitHub："@,
        RawKey::License => "授權條款："@,
        RawKey::BuiltWith => "建置工具："@,
        RawKey::AboutInspired => "靈感來自經典的連發手把。"@,
        RawKey::TurboOnHover => "連發開啟：按住時重複"@,
        RawKey::TurboOffHover => "連發關閉：跟隨觸發鍵按下與放開"@,
        RawKey::HidActivationTitle => "裝置啟用"@,
        RawKey::HidActivationPressPrompt => "請按住裝置上的一個按鈕。"@,
        RawKey::HidActivationReleasePrompt => "現在放開按鈕。"@,
        RawKey::HidActivationWarningTitle => "請注意"@,
        RawKey::HidActivationWarning1 => "每次只按一個按鈕。"@,
        RawKey::HidActivationWarning2 => "不要移動搖桿或扳機。"@,
        RawKey::HidActivationWarning3 => "閒置狀態將被記錄為基準。"@,
        RawKey::HidActivationSuccessTitle => "啟用成功"@,
        RawKey::HidActivationSuccessMessage => "裝置已可以使用。"@,
        RawKey::HidActivationSuccessHint => "現在可以在設定中擷取其按鈕。"@,
        RawKey::HidActivationAutoClose => "此視窗將自動關閉。"@,
        RawKey::HidActivationFailedTitle => "啟用失敗"@,
        RawKey::HidActivationError => "無法記錄裝置狀態。"@,
        RawKey::HidActivationRetry => "重試"@,
        RawKey::HidActivationCancel => "取消"@,
        RawKey::MouseMoveDirectionLabel => "滑鼠移動方向"@,
        RawKey::MouseMoveUp => "↑ 上"@,
        RawKey::MouseMoveDown => "↓ 下"@,
        RawKey::MouseMoveLeft => "← 左"@,
        RawKey::MouseMoveRight => "→ 右"@,
        RawKey::MouseMoveUpLeft => "↖ 左上"@,
        RawKey::MouseMoveUpRight => "↗ 右上"@,
        RawKey::MouseMoveDownLeft => "↙ 左下"@,
        RawKey::MouseMoveDownRight => "↘ 右下"@,
        RawKey::SetMouseDirectionHover => "設定滑鼠移動方向"@,
        RawKey::MouseScrollDirectionLabel => "滑鼠滾輪方向"@,
        RawKey::MouseScrollUp => "⬆ 向上捲動"@,
        RawKey::MouseScrollDown => "⬇ 向下捲動"@,
        RawKey::MouseMiddleButton => "滑鼠中鍵"@,
        RawKey::SetMouseScrollDirectionHover => "設定滑鼠滾輪方向"@,
        RawKey::SpeedLabel => "速度："@,
        RawKey::RawInputCaptureModeLabel => "Raw Input 擷取模式："@,
        RawKey::XInputCaptureModeLabel => "XInput 擷取模式："@,
        RawKey::CaptureModeMostSustained => "最持久"@,
        RawKey::CaptureModeAdaptiveIntelligent => "自適應"@,
        RawKey::CaptureModeMaxChangedBits => "變化位元最多"@,
        RawKey::CaptureModeMaxSetBits => "設定位元最多"@,
        RawKey::CaptureModeLastStable => "最後穩定"@,
        RawKey::CaptureModeHatSwitchOptimized => "方向帽最佳化"@,
        RawKey::CaptureModeAnalogOptimized => "類比最佳化"@,
        RawKey::CaptureModeDiagonalPriority => "斜向優先"@,
        RawKey::AddTargetKeyHover => "新增目標鍵"@,
        RawKey::AddSequenceKeyHover => "向序列新增按鍵"@,
        RawKey::ClearAllTriggerKeysHover => "清除所有觸發鍵"@,
        RawKey::ClearAllTargetKeysHover => "清除所有目標鍵"@,
        RawKey::DiagonalHintTitle => "斜向輸入"@,
        RawKey::DiagonalHint => "同時按下兩個方向以記錄斜向。"@,
        RawKey::TriggerModeLabel => "觸發模式："@,
        RawKey::TriggerModeSingle => "單鍵"@,
        RawKey::TriggerModeSequence => "序列"@,
        RawKey::TriggerModeSingleBadge => "單鍵"@,
        RawKey::TriggerModeSequenceBadge => "序列"@,
        RawKey::SequenceTriggerExplanation => "在時間視窗內依序輸入這些按鍵時觸發。"@,
        RawKey::SequenceWindowLabel => "時間視窗（毫秒）："@,
        RawKey::SequenceWindowHint => "完成序列的最長時間。"@,
        RawKey::SequenceCapturing => "正在錄製序列..."@,
        RawKey::SequenceCaptureHint => "依序輸入按鍵，然後按結束鍵。"@,
        RawKey::SequenceComplete => "✔ 完成"@,
        RawKey::SequenceClearBtn => "清除"@,
        RawKey::SequenceExampleLabel => "範例："@,
        RawKey::TargetModeLabel => "目標模式："@,
        RawKey::TargetModeSingle => "單個"@,
        RawKey::TargetModeMulti => "多鍵"@,
        RawKey::TargetModeSequence => "序列"@,
        RawKey::TargetModeSingleBadge => "單個"@,
        RawKey::TargetModeMultiBadge => "多鍵"@,
        RawKey::TargetModeSequenceBadge => "序列"@,
        RawKey::TargetModeMultiExplanation => "所有目標鍵同時按下。"@,
        RawKey::TargetModeSequenceExplanation => "目標鍵依序按下。"@,
        RawKey::TargetSequenceOutputHint => "按鍵將依顯示的順序送出。"@,
        RawKey::DevicesBtn => "🎮 裝置"@,
        RawKey::DeviceManagerTitle => "裝置管理"@,
        RawKey::ConnectedDevicesTitle => "已連接裝置"@,
        RawKey::RefreshBtn => "🔄 重新整理"@,
        RawKey::XInputControllersTitle => "XInput 控制器"@,
        RawKey::NoControllersConnected => "未連接控制器"@,
        RawKey::HidDevicesTitle => "HID 裝置"@,
        RawKey::NoHidDevicesDetected => "未偵測到 HID 裝置"@,
        RawKey::SlotLabel => "槽位"@,
        RawKey::HideBtn => "隱藏"@,
        RawKey::DeviceSettingsBtn => "⚙ 裝置設定"@,
        RawKey::VibrationControlTitle => "震動"@,
        RawKey::LeftMotorLabel => "左馬達："@,
        RawKey::RightMotorLabel => "右馬達："@,
        RawKey::PowerLabel => "強度："@,
        RawKey::TestVibrationBtn => "測試震動"@,
        RawKey::StopVibrationBtn => "停止震動"@,
        RawKey::DeadzoneSettingsTitle => "死區"@,
        RawKey::StickLabel => "搖桿："@,
        RawKey::TriggerLabelShort => "扳機："@,
        RawKey::ThresholdLabel => "閾值："@,
        RawKey::PreferredApiLabel => "偏好介面："@,
        RawKey::ApiAuto => "自動"@,
        RawKey::ApiXInput => "XInput"@,
        RawKey::ApiRawInput => "Raw Input"@,
        RawKey::ReactivateBtn => "重新啟用"@,
        RawKey::AllDevicesFilter => "所有裝置"@,
        RawKey::GameDevicesOnlyFilter => "僅遊戲裝置"@,
        RawKey::NoGameDevicesDetected => "未偵測到遊戲裝置"@,
        RawKey::TrayActivate => "啟用"@,
        RawKey::TrayPause => "暫停"@,
        RawKey::TrayShowWindow => "顯示視窗"@,
        RawKey::TrayAbout => "關於"@,
        RawKey::TrayExit => "結束"@,
        RawKey::TrayNotificationLaunched => "Sorahk 正在背景執行。"@,
        RawKey::TrayNotificationActivated => "Sorahk 已啟用。"@,
        RawKey::TrayNotificationPaused => "Sorahk 已暫停。"@,
        RawKey::SequenceIcon => "🔗"@,
        RawKey::TargetIcon => "🎯"@,
        RawKey::ArrowIcon => "→"@,
        RawKey::DeleteIcon => "🗑"@,
        RawKey::KeysText => "個按鍵"@,
        RawKey::TargetsText => "個目標"@,
        RawKey::RulePropsButton => "⚙ 規則"@,
        RawKey::RulePropsDialogTitle => "規則屬性"@,
        RawKey::RulePropsHint => "標記的按鍵在主體執行後保持按下；追加鍵隨後按下。"@,
        RawKey::RulePropsHoldColumn => "保持"@,
        RawKey::RulePropsAppendLabel => "追加按鍵："@,
        RawKey::RulePropsAddAppend => "➕ 新增"@,
        RawKey::RulePropsAppendPlaceholder => "按鍵名稱"@,
        RawKey::RulePropsSave => "儲存"@,
        RawKey::RulePropsCancel => "取消"@,
        RawKey::PresetTitle => "預設組"@,
        RawKey::PresetSaveBtn => "💾 儲存預設組"@,
        RawKey::PresetDeleteBtn => "🗑 刪除"@,
        RawKey::PresetRenameBtn => "✏ 重新命名"@,
        RawKey::PresetNameHint => "預設組名稱"@,
        RawKey::NoPreset => "（無）"@,
        RawKey::NoteLabel => "備註："@,
        RawKey::NoteHint => "此映射的選用備註"@,
    }
}

/// Looks up the Traditional Chinese text for `key`.
pub fn zh_tw_raw(key: RawKey) -> (s: &'static str)
    ensures
        s@ == zh_tw_text(key),
{
    match key {
        RawKey::AppTitle => "Sorahk",
        RawKey::SettingsBtn => "⚙ 設定",
        RawKey::AboutBtn => "❓ 關於",
        RawKey::Dark => "🌙 深色",
        RawKey::Light => "☀ 淺色",
        RawKey::StatusTitle => "狀態",
        RawKey::Paused => "已暫停",
        RawKey::Running => "執行中",
        RawKey::PauseBtn => "⏸ 暫停",
        RawKey::StartBtn => "▶ 啟動",
        RawKey::ExitBtn => "✖ 結束",
        RawKey::HotkeySettingsTitle => "快捷鍵設定",
        RawKey::ToggleKeyLabel => "切換鍵：",
        RawKey::ClickToSet => "點擊設定",
        RawKey::ConfigSettingsTitle => "設定檔",
        RawKey::InputTimeoutDisplay => "輸入逾時：",
        RawKey::DefaultIntervalDisplay => "預設間隔：",
        RawKey::DefaultDurationDisplay => "預設持續時間：",
        RawKey::ShowTrayIconDisplay => "顯示托盤圖示：",
        RawKey::ShowNotificationsDisplay => "顯示通知：",
        RawKey::AlwaysOnTopDisplay => "視窗置頂：",
        RawKey::Yes => "是",
        RawKey::No => "否",
        RawKey::KeyMappingsTitle => "按鍵映射",
        RawKey::SettingsDialogTitle => "設定",
        RawKey::Language => "語言：",
        RawKey::DarkMode => "深色模式：",
        RawKey::AlwaysOnTop => "視窗置頂：",
        RawKey::ShowTrayIcon => "顯示托盤圖示：",
        RawKey::ShowNotifications => "顯示通知：",
        RawKey::ToggleKeySection => "快捷鍵",
        RawKey::SequenceFinalizeRowLabel => "結束序列鍵：",
        RawKey::SequenceFinalizeHint => "錄製序列時按下此鍵結束錄製，該鍵本身不會被記錄。",
        RawKey::PressAnyKey => "請按任意鍵...",
        RawKey::ClickToSetTrigger => "點擊設定觸發鍵",
        RawKey::ClickToSetTarget => "點擊設定目標鍵",
        RawKey::GlobalConfigTitle => "全域設定",
        RawKey::InputTimeoutLabel => "輸入逾時（毫秒）：",
        RawKey::DefaultIntervalLabel => "預設間隔（毫秒）：",
        RawKey::DefaultDurationLabel => "預設持續時間（毫秒）：",
        RawKey::MouseMovePerEventMinLabel => "滑鼠移動雜訊門檻（像素）：",
        RawKey::MouseMovePerEventMinHint => "小於此距離的滑鼠事件將被忽略。",
        RawKey::MouseMoveMinTriggerLabel => "滑鼠移動觸發距離（像素）：",
        RawKey::MouseMoveMinTriggerHint => "觸發方向所需的累計移動距離。",
        RawKey::MouseMoveRearmLabel => "滑鼠移動重置距離（像素）：",
        RawKey::MouseMoveRearmHint => "同一方向再次觸發前所需的反向移動距離。",
        RawKey::WorkerCountLabel => "工作執行緒數：",
        RawKey::TriggerShort => "觸發",
        RawKey::TargetShort => "目標",
        RawKey::IntShort => "間隔",
        RawKey::DurShort => "時長",
        RawKey::AddNewMappingTitle => "新增映射",
        RawKey::AddBtn => "➕ 新增",
        RawKey::ProcessWhitelistHint => "程序白名單（空白表示所有程序）：",
        RawKey::ProcessExample => "例如 notepad.exe",
        RawKey::BrowseBtn => "📂 瀏覽",
        RawKey::SaveChangesBtn => "💾 儲存變更",
        RawKey::CancelSettingsBtn => "取消",
        RawKey::ChangesTakeEffect => "儲存後變更生效。",
        RawKey::CloseWindowTitle => "關閉視窗",
        RawKey::CloseSubtitle => "您想要做什麼？",
        RawKey::MinimizeToTrayBtn => "最小化到托盤",
        RawKey::ExitProgramBtn => "結束程式",
        RawKey::CancelCloseBtn => "取消",
        RawKey::ErrorTitle => "錯誤",
        RawKey::Close => "關閉",
        RawKey::DuplicateTriggerError => "該觸發鍵已存在映射。",
        RawKey::DuplicateProcessError => "該程序已在白名單中。",
        RawKey::AboutDescriptionLine1 => "一款輕量級的自動按鍵工具。",
        RawKey::AboutDescriptionLine2 => "集連發、序列與裝置輸入於一體。",
        RawKey::Author => "作者：",
        RawKey::GitHub => "GitHub：",
        RawKey::License => "授權條款：",
        RawKey::BuiltWith => "建置工具：",
        RawKey::AboutInspired => "靈感來自經典的連發手把。",
        RawKey::TurboOnHover => "連發開啟：按住時重複",
        RawKey::TurboOffHover => "連發關閉：跟隨觸發鍵按下與放開",
        RawKey::HidActivationTitle => "裝置啟用",
        RawKey::HidActivationPressPrompt => "請按住裝置上的一個按鈕。",
        RawKey::HidActivationReleasePrompt => "現在放開按鈕。",
        RawKey::HidActivationWarningTitle => "請注意",
        RawKey::HidActivationWarning1 => "每次只按一個按鈕。",
        RawKey::HidActivationWarning2 => "不要移動搖桿或扳機。",
        RawKey::HidActivationWarning3 => "閒置狀態將被記錄為基準。",
        RawKey::HidActivationSuccessTitle => "啟用成功",
        RawKey::HidActivationSuccessMessage => "裝置已可以使用。",
        RawKey::HidActivationSuccessHint => "現在可以在設定中擷取其按鈕。",
        RawKey::HidActivationAutoClose => "此視窗將自動關閉。",
        RawKey::HidActivationFailedTitle => "啟用失敗",
        RawKey::HidActivationError => "無法記錄裝置狀態。",
        RawKey::HidActivationRetry => "重試",
        RawKey::HidActivationCancel => "取消",
        RawKey::MouseMoveDirectionLabel => "滑鼠移動方向",
        RawKey::MouseMoveUp => "↑ 上",
        RawKey::MouseMoveDown => "↓ 下",
        RawKey::MouseMoveLeft => "← 左",
        RawKey::MouseMoveRight => "→ 右",
        RawKey::MouseMoveUpLeft => "↖ 左上",
        RawKey::MouseMoveUpRight => "↗ 右上",
        RawKey::MouseMoveDownLeft => "↙ 左下",
        RawKey::MouseMoveDownRight => "↘ 右下",
        RawKey::SetMouseDirectionHover => "設定滑鼠移動方向",
        RawKey::MouseScrollDirectionLabel => "滑鼠滾輪方向",
        RawKey::MouseScrollUp => "⬆ 向上捲動",
        RawKey::MouseScrollDown => "⬇ 向下捲動",
        RawKey::MouseMiddleButton => "滑鼠中鍵",
        RawKey::SetMouseScrollDirectionHover => "設定滑鼠滾輪方向",
        RawKey::SpeedLabel => "速度：",
        RawKey::RawInputCaptureModeLabel => "Raw Input 擷取模式：",
        RawKey::XInputCaptureModeLabel => "XInput 擷取模式：",
        RawKey::CaptureModeMostSustained => "最持久",
        RawKey::CaptureModeAdaptiveIntelligent => "自適應",
        RawKey::CaptureModeMaxChangedBits => "變化位元最多",
        RawKey::CaptureModeMaxSetBits => "設定位元最多",
        RawKey::CaptureModeLastStable => "最後穩定",
        RawKey::CaptureModeHatSwitchOptimized => "方向帽最佳化",
        RawKey::CaptureModeAnalogOptimized => "類比最佳化",
        RawKey::CaptureModeDiagonalPriority => "斜向優先",
        RawKey::AddTargetKeyHover => "新增目標鍵",
        RawKey::AddSequenceKeyHover => "向序列新增按鍵",
        RawKey::ClearAllTriggerKeysHover => "清除所有觸發鍵",
        RawKey::ClearAllTargetKeysHover => "清除所有目標鍵",
        RawKey::DiagonalHintTitle => "斜向輸入",
        RawKey::DiagonalHint => "同時按下兩個方向以記錄斜向。",
        RawKey::TriggerModeLabel => "觸發模式：",
        RawKey::TriggerModeSingle => "單鍵",
        RawKey::TriggerModeSequence => "序列",
        RawKey::TriggerModeSingleBadge => "單鍵",
        RawKey::TriggerModeSequenceBadge => "序列",
        RawKey::SequenceTriggerExplanation => "在時間視窗內依序輸入這些按鍵時觸發。",
        RawKey::SequenceWindowLabel => "時間視窗（毫秒）：",
        RawKey::SequenceWindowHint => "完成序列的最長時間。",
        RawKey::SequenceCapturing => "正在錄製序列...",
        RawKey::SequenceCaptureHint => "依序輸入按鍵，然後按結束鍵。",
        RawKey::SequenceComplete => "✔ 完成",
        RawKey::SequenceClearBtn => "清除",
        RawKey::SequenceExampleLabel => "範例：",
        RawKey::TargetModeLabel => "目標模式：",
        RawKey::TargetModeSingle => "單個",
        RawKey::TargetModeMulti => "多鍵",
        RawKey::TargetModeSequence => "序列",
        RawKey::TargetModeSingleBadge => "單個",
        RawKey::TargetModeMultiBadge => "多鍵",
        RawKey::TargetModeSequenceBadge => "序列",
        RawKey::TargetModeMultiExplanation => "所有目標鍵同時按下。",
        RawKey::TargetModeSequenceExplanation => "目標鍵依序按下。",
        RawKey::TargetSequenceOutputHint => "按鍵將依顯示的順序送出。",
        RawKey::DevicesBtn => "🎮 裝置",
        RawKey::DeviceManagerTitle => "裝置管理",
        RawKey::ConnectedDevicesTitle => "已連接裝置",
        RawKey::RefreshBtn => "🔄 重新整理",
        RawKey::XInputControllersTitle => "XInput 控制器",
        RawKey::NoControllersConnected => "未連接控制器",
        RawKey::HidDevicesTitle => "HID 裝置",
        RawKey::NoHidDevicesDetected => "未偵測到 HID 裝置",
        RawKey::SlotLabel => "槽位",
        RawKey::HideBtn => "隱藏",
        RawKey::DeviceSettingsBtn => "⚙ 裝置設定",
        RawKey::VibrationControlTitle => "震動",
        RawKey::LeftMotorLabel => "左馬達：",
        RawKey::RightMotorLabel => "右馬達：",
        RawKey::PowerLabel => "強度：",
        RawKey::TestVibrationBtn => "測試震動",
        RawKey::StopVibrationBtn => "停止震動",
        RawKey::DeadzoneSettingsTitle => "死區",
        RawKey::StickLabel => "搖桿：",
        RawKey::TriggerLabelShort => "扳機：",
        RawKey::ThresholdLabel => "閾值：",
        RawKey::PreferredApiLabel => "偏好介面：",
        RawKey::ApiAuto => "自動",
        RawKey::ApiXInput => "XInput",
        RawKey::ApiRawInput => "Raw Input",
        RawKey::ReactivateBtn => "重新啟用",
        RawKey::AllDevicesFilter => "所有裝置",
        RawKey::GameDevicesOnlyFilter => "僅遊戲裝置",
        RawKey::NoGameDevicesDetected => "未偵測到遊戲裝置",
        RawKey::TrayActivate => "啟用",
        RawKey::TrayPause => "暫停",
        RawKey::TrayShowWindow => "顯示視窗",
        RawKey::TrayAbout => "關於",
        RawKey::TrayExit => "結束",
        RawKey::TrayNotificationLaunched => "Sorahk 正在背景執行。",
        RawKey::TrayNotificationActivated => "Sorahk 已啟用。",
        RawKey::TrayNotificationPaused => "Sorahk 已暫停。",
        RawKey::SequenceIcon => "🔗",
        RawKey::TargetIcon => "🎯",
        RawKey::ArrowIcon => "→",
        RawKey::DeleteIcon => "🗑",
        RawKey::KeysText => "個按鍵",
        RawKey::TargetsText => "個目標",
        RawKey::RulePropsButton => "⚙ 規則",
        RawKey::RulePropsDialogTitle => "規則屬性",
        RawKey::RulePropsHint => "標記的按鍵在主體執行後保持按下；追加鍵隨後按下。",
        RawKey::RulePropsHoldColumn => "保持",
        RawKey::RulePropsAppendLabel => "追加按鍵：",
        RawKey::RulePropsAddAppend => "➕ 新增",
        RawKey::RulePropsAppendPlaceholder => "按鍵名稱",
        RawKey::RulePropsSave => "儲存",
        RawKey::RulePropsCancel => "取消",
        RawKey::PresetTitle => "預設組",
        RawKey::PresetSaveBtn => "💾 儲存預設組",
        RawKey::PresetDeleteBtn => "🗑 刪除",
        RawKey::PresetRenameBtn => "✏ 重新命名",
        RawKey::PresetNameHint => "預設組名稱",
        RawKey::NoPreset => "（無）",
        RawKey::NoteLabel => "備註：",
        RawKey::NoteHint => "此映射的選用備註",
    }
}

} // verus!
