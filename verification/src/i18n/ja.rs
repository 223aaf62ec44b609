//! Japanese user interface texts.

use vstd::prelude::*;

use super::raw_key::RawKey;

verus! {

/// The Japanese text for each key.
pub open spec fn ja_text(key: RawKey) -> Seq<char> {
    match key {
        RawKey::AppTitle => "Sorahk"@,
        RawKey::SettingsBtn => "⚙ 設定"@,
        RawKey::AboutBtn => "❓ 情報"@,
        RawKey::Dark => "🌙 ダーク"@,
        RawKey::Light => "☀ ライト"@,
        RawKey::StatusTitle => "ステータス"@,
        RawKey::Paused => "一時停止中"@,
        RawKey::Running => "実行中"@,
        RawKey::PauseBtn => "⏸ 一時停止"@,
        RawKey::StartBtn => "▶ 開始"@,
        RawKey::ExitBtn => "✖ 終了"@,
        RawKey::HotkeySettingsTitle => "ホットキー設定"@,
        RawKey::ToggleKeyLabel => "切り替えキー："@,
        RawKey::ClickToSet => "クリックして設定"@,
        RawKey::ConfigSettingsTitle => "構成"@,
        RawKey::InputTimeoutDisplay => "入力タイムアウト："@,
        RawKey::DefaultIntervalDisplay => "既定の間隔："@,
        RawKey::DefaultDurationDisplay => "既定の押下時間："@,
        RawKey::ShowTrayIconDisplay => "トレイアイコン表示："@,
        RawKey::ShowNotificationsDisplay => "通知を表示："@,
        RawKey::AlwaysOnTopDisplay => "常に最前面："@,
        RawKey::Yes => "はい"@,
        RawKey::No => "いいえ"@,
        RawKey::KeyMappingsTitle => "キーマッピング"@,
        RawKey::SettingsDialogTitle => "設定"@,
        RawKey::Language => "言語："@,
        RawKey::DarkMode => "ダークモード："@,
        RawKey::AlwaysOnTop => "常に最前面："@,
        RawKey::ShowTrayIcon => "トレイアイコン表示："@,
        RawKey::ShowNotifications => "通知を表示："@,
        RawKey::ToggleKeySection => "ホットキー"@,
        RawKey::SequenceFinalizeRowLabel => "シーケンス確定キー："@,
        RawKey::SequenceFinalizeHint => "シーケンス記録中にこのキーを押すと記録を終了します。このキー自体は記録されません。"@,
        RawKey::PressAnyKey => "任意のキーを押してください..."@,
        RawKey::ClickToSetTrigger => "クリックしてトリガーを設定"@,
        RawKey::ClickToSetTarget => "クリックしてターゲットを設定"@,
        RawKey::GlobalConfigTitle => "全体設定"@,
        RawKey::InputTimeoutLabel => "入力タイムアウト (ms)："@,
        RawKey::DefaultIntervalLabel => "既定の間隔 (ms)："@,
        RawKey::DefaultDurationLabel => "既定の押下時間 (ms)："@,
        RawKey::MouseMovePerEventMinLabel => "マウス移動ノイズ閾値 (px)："@,
        RawKey::MouseMovePerEventMinHint => "これより小さいマウス移動は無視されます。"@,
        RawKey::MouseMoveMinTriggerLabel => "マウス移動トリガー距離 (px)："@,
        RawKey::MouseMoveMinTriggerHint => "方向トリガーの発動に必要な累積移動量です。"@,
        RawKey::MouseMoveRearmLabel => "マウス移動再装填距離 (px)："@,
        RawKey::MouseMoveRearmHint => "同じ方向を再び発動するまでに必要な逆方向の移動量です。"@,
        RawKey::WorkerCountLabel => "ワーカー数："@,
        RawKey::TriggerShort => "トリガー"@,
        RawKey::TargetShort => "ターゲット"@,
        RawKey::IntShort => "間隔"@,
        RawKey::DurShort => "時間"@,
        RawKey::AddNewMappingTitle => "新しいマッピングを追加"@,
        RawKey::AddBtn => "➕ 追加"@,
        RawKey::ProcessWhitelistHint => "プロセスホワイトリスト（空 = すべてのプロセス）："@,
        RawKey::ProcessExample => "例：notepad.exe"@,
        RawKey::BrowseBtn => "📂 参照"@,
        RawKey::SaveChangesBtn => "💾 変更を保存"@,
        RawKey::CancelSettingsBtn => "キャンセル"@,
        RawKey::ChangesTakeEffect => "変更は保存後に反映されます。"@,
        RawKey::CloseWindowTitle => "ウィンドウを閉じる"@,
        RawKey::CloseSubtitle => "どうしますか？"@,
        RawKey::MinimizeToTrayBtn => "トレイに最小化"@,
        RawKey::ExitProgramBtn => "プログラムを終了"@,
        RawKey::CancelCloseBtn => "キャンセル"@,
        RawKey::ErrorTitle => "エラー"@,
        RawKey::Close => "閉じる"@,
        RawKey::DuplicateTriggerError => "このトリガーキーは既にマッピングされています。"@,
        RawKey::DuplicateProcessError => "このプロセスは既にホワイトリストにあります。"@,
        RawKey::AboutDescriptionLine1 => "軽量な自動キー入力ツールです。"@,
        RawKey::AboutDescriptionLine2 => "連打、シーケンス、デバイス入力をひとつに。"@,
        RawKey::Author => "作者："@,
        RawKey::GitHub => "GitHub："@,
        RawKey::License => "ライセンス："@,
        RawKey::BuiltWith => "使用技術："@,
        RawKey::AboutInspired => "クラシックな連射コントローラーに着想を得ました。"@,
        RawKey::TurboOnHover => "連射オン：押している間繰り返す"@,
        RawKey::TurboOffHover => "連射オフ：トリガーの押下と解放に追従"@,
        RawKey::HidActivationTitle => "デバイスのアクティベーション"@,
        RawKey::HidActivationPressPrompt => "デバイスのボタンをひとつ押し続けてください。"@,
        RawKey::HidActivationReleasePrompt => "ボタンを離してください。"@,
        RawKey::HidActivationWarningTitle => "注意"@,
        RawKey::HidActivationWarning1 => "一度にひとつのボタンだけを押してください。"@,
        RawKey::HidActivationWarning2 => "スティックやトリガーを動かさないでください。"@,
        RawKey::HidActivationWarning3 => "待機状態が基準として記録されます。"@,
        RawKey::HidActivationSuccessTitle => "アクティベーション完了"@,
        RawKey::HidActivationSuccessMessage => "デバイスを使用できます。"@,
        RawKey::HidActivationSuccessHint => "設定でボタンを取得できるようになりました。"@,
        RawKey::HidActivationAutoClose => "このウィンドウは自動的に閉じます。"@,
        RawKey::HidActivationFailedTitle => "アクティベーション失敗"@,
        RawKey::HidActivationError => "デバイスの状態を記録できませんでした。"@,
        RawKey::HidActivationRetry => "再試行"@,
        RawKey::HidActivationCancel => "キャンセル"@,
        RawKey::MouseMoveDirectionLabel => "マウス移動方向"@,
        RawKey::MouseMoveUp => "↑ 上"@,
        RawKey::MouseMoveDown => "↓ 下"@,
        RawKey::MouseMoveLeft => "← 左"@,
        RawKey::MouseMoveRight => "→ 右"@,
        RawKey::MouseMoveUpLeft => "↖ 左上"@,
        RawKey::MouseMoveUpRight => "↗ 右上"@,
        RawKey::MouseMoveDownLeft => "↙ 左下"@,
        RawKey::MouseMoveDownRight => "↘ 右下"@,
        RawKey::SetMouseDirectionHover => "マウス移動方向を設定"@,
        RawKey::MouseScrollDirectionLabel => "マウススクロール方向"@,
        RawKey::MouseScrollUp => "⬆ 上スクロール"@,
        RawKey::MouseScrollDown => "⬇ 下スクロール"@,
        RawKey::MouseMiddleButton => "中ボタン"@,
        RawKey::SetMouseScrollDirectionHover => "マウススクロール方向を設定"@,
        RawKey::SpeedLabel => "速度："@,
        RawKey::RawInputCaptureModeLabel => "Raw Input 取得モード："@,
        RawKey::XInputCaptureModeLabel => "XInput 取得モード："@,
        RawKey::CaptureModeMostSustained => "最長持続"@,
        RawKey::CaptureModeAdaptiveIntelligent => "アダプティブ"@,
        RawKey::CaptureModeMaxChangedBits => "変化ビット最大"@,
        RawKey::CaptureModeMaxSetBits => "セットビット最大"@,
        RawKey::CaptureModeLastStable => "最終安定"@,
        RawKey::CaptureModeHatSwitchOptimized => "ハットスイッチ最適化"@,
        RawKey::CaptureModeAnalogOptimized => "アナログ最適化"@,
        RawKey::CaptureModeDiagonalPriority => "斜め優先"@,
        RawKey::AddTargetKeyHover => "ターゲットキーを追加"@,
        RawKey::AddSequenceKeyHover => "シーケンスにキーを追加"@,
        RawKey::ClearAllTriggerKeysHover => "トリガーキーをすべて消去"@,
        RawKey::ClearAllTargetKeysHover => "ターゲットキーをすべて消去"@,
        RawKey::DiagonalHintTitle => "斜め入力"@,
        RawKey::DiagonalHint => "2 方向を同時に押すと斜めが記録されます。"@,
        RawKey::TriggerModeLabel => "トリガーモード："@,
        RawKey::TriggerModeSingle => "単一キー"@,
        RawKey::TriggerModeSequence => "シーケンス"@,
        RawKey::TriggerModeSingleBadge => "キー"@,
        RawKey::TriggerModeSequenceBadge => "連続"@,
        RawKey::SequenceTriggerExplanation => "時間枠内に順番どおりに入力すると発動します。"@,
        RawKey::SequenceWindowLabel => "時間枠 (ms)："@,
        RawKey::SequenceWindowHint => "シーケンスを完了するまでの最大時間です。"@,
        RawKey::SequenceCapturing => "シーケンスを記録中..."@,
        RawKey::SequenceCaptureHint => "キーを順番に入力し、確定キーを押してください。"@,
        RawKey::SequenceComplete => "✔ 完了"@,
        RawKey::SequenceClearBtn => "クリア"@,
        RawKey::SequenceExampleLabel => "例："@,
        RawKey::TargetModeLabel => "ターゲットモード："@,
        RawKey::TargetModeSingle => "単一"@,
        RawKey::TargetModeMulti => "複数"@,
        RawKey::TargetModeSequence => "シーケンス"@,
        RawKey::TargetModeSingleBadge => "単一"@,
        RawKey::TargetModeMultiBadge => "複数"@,
        RawKey::TargetModeSequenceBadge => "連続"@,
        RawKey::TargetModeMultiExplanation => "すべてのターゲットキーを同時に押します。"@,
        RawKey::TargetModeSequenceExplanation => "ターゲットキーを順番に押します。"@,
        RawKey::TargetSequenceOutputHint => "キーは表示順に送信されます。"@,
        RawKey::DevicesBtn => "🎮 デバイス"@,
        RawKey::DeviceManagerTitle => "デバイスマネージャー"@,
        RawKey::ConnectedDevicesTitle => "接続中のデバイス"@,
        RawKey::RefreshBtn => "🔄 更新"@,
        RawKey::XInputControllersTitle => "XInput コントローラー"@,
        RawKey::NoControllersConnected => "コントローラーが接続されていません"@,
        RawKey::HidDevicesTitle => "HID デバイス"@,
        RawKey::NoHidDevicesDetected => "HID デバイスが見つかりません"@,
        RawKey::SlotLabel => "スロット"@,
        RawKey::HideBtn => "隠す"@,
        RawKey::DeviceSettingsBtn => "⚙ デバイス設定"@,
        RawKey::VibrationControlTitle => "振動"@,
        RawKey::LeftMotorLabel => "左モーター："@,
        RawKey::RightMotorLabel => "右モーター："@,
        RawKey::PowerLabel => "強さ："@,
        RawKey::TestVibrationBtn => "振動テスト"@,
        RawKey::StopVibrationBtn => "振動停止"@,
        RawKey::DeadzoneSettingsTitle => "デッドゾーン"@,
        RawKey::StickLabel => "スティック："@,
        RawKey::TriggerLabelShort => "トリガー："@,
        RawKey::ThresholdLabel => "閾値："@,
        RawKey::PreferredApiLabel => "優先 API："@,
        RawKey::ApiAuto => "自動"@,
        RawKey::ApiXInput => "XInput"@,
        RawKey::ApiRawInput => "Raw Input"@,
        RawKey::ReactivateBtn => "再アクティベート"@,
        RawKey::AllDevicesFilter => "すべてのデバイス"@,
        RawKey::GameDevicesOnlyFilter => "ゲームデバイスのみ"@,
        RawKey::NoGameDevicesDetected => "ゲームデバイスが見つかりません"@,
        RawKey::TrayActivate => "有効化"@,
        RawKey::TrayPause => "一時停止"@,
        RawKey::TrayShowWindow => "ウィンドウを表示"@,
        RawKey::TrayAbout => "情報"@,
        RawKey::TrayExit => "終了"@,
        RawKey::TrayNotificationLaunched => "Sorahk はバックグラウンドで実行中です。"@,
        RawKey::TrayNotificationActivated => "Sorahk が有効になりました。"@,
        RawKey::TrayNotificationPaused => "Sorahk が一時停止しました。"@,
        RawKey::SequenceIcon => "🔗"@,
        RawKey::TargetIcon => "🎯"@,
        RawKey::ArrowIcon => "→"@,
        RawKey::DeleteIcon => "🗑"@,
        RawKey::KeysText => "キー"@,
        RawKey::TargetsText => "ターゲット"@,
        RawKey::RulePropsButton => "⚙ ルール"@,
        RawKey::RulePropsDialogTitle => "ルールのプロパティ"@,
        RawKey::RulePropsHint => "印を付けたキーは本体の再生後も押されたままになり、追加キーはその後に押されます。"@,
        RawKey::RulePropsHoldColumn => "保持"@,
        RawKey::RulePropsAppendLabel => "追加キー："@,
        RawKey::RulePropsAddAppend => "➕ 追加"@,
        RawKey::RulePropsAppendPlaceholder => "キー名"@,
        RawKey::RulePropsSave => "保存"@,
        RawKey::RulePropsCancel => "キャンセル"@,
        RawKey::PresetTitle => "プリセット"@,
        RawKey::PresetSaveBtn => "💾 プリセットを保存"@,
        RawKey::PresetDeleteBtn => "🗑 削除"@,
        RawKey::PresetRenameBtn => "✏ 名前を変更"@,
        RawKey::PresetNameHint => "プリセット名"@,
        RawKey::NoPreset => "（なし）"@,
        RawKey::NoteLabel => "メモ："@,
        RawKey::NoteHint => "このマッピングのメモ（任意）"@,
    }
}

/// Looks up the Japanese text for `key`.
pub fn ja_raw(key: RawKey) -> (s: &'static str)
    ensures
        s@ == ja_text(key),
{
    match key {
        RawKey::AppTitle => "Sorahk",
        RawKey::SettingsBtn => "⚙ 設定",
        RawKey::AboutBtn => "❓ 情報",
        RawKey::Dark => "🌙 ダーク",
        RawKey::Light => "☀ ライト",
        RawKey::StatusTitle => "ステータス",
        RawKey::Paused => "一時停止中",
        RawKey::Running => "実行中",
        RawKey::PauseBtn => "⏸ 一時停止",
        RawKey::StartBtn => "▶ 開始",
        RawKey::ExitBtn => "✖ 終了",
        RawKey::HotkeySettingsTitle => "ホットキー設定",
        RawKey::ToggleKeyLabel => "切り替えキー：",
        RawKey::ClickToSet => "クリックして設定",
        RawKey::ConfigSettingsTitle => "構成",
        RawKey::InputTimeoutDisplay => "入力タイムアウト：",
        RawKey::DefaultIntervalDisplay => "既定の間隔：",
        RawKey::DefaultDurationDisplay => "既定の押下時間：",
        RawKey::ShowTrayIconDisplay => "トレイアイコン表示：",
        RawKey::ShowNotificationsDisplay => "通知を表示：",
        RawKey::AlwaysOnTopDisplay => "常に最前面：",
        RawKey::Yes => "はい",
        RawKey::No => "いいえ",
        RawKey::KeyMappingsTitle => "キーマッピング",
        RawKey::SettingsDialogTitle => "設定",
        RawKey::Language => "言語：",
        RawKey::DarkMode => "ダークモード：",
        RawKey::AlwaysOnTop => "常に最前面：",
        RawKey::ShowTrayIcon => "トレイアイコン表示：",
        RawKey::ShowNotifications => "通知を表示：",
        RawKey::ToggleKeySection => "ホットキー",
        RawKey::SequenceFinalizeRowLabel => "シーケンス確定キー：",
        RawKey::SequenceFinalizeHint => "シーケンス記録中にこのキーを押すと記録を終了します。このキー自体は記録されません。",
        RawKey::PressAnyKey => "任意のキーを押してください...",
        RawKey::ClickToSetTrigger => "クリックしてトリガーを設定",
        RawKey::ClickToSetTarget => "クリックしてターゲットを設定",
        RawKey::GlobalConfigTitle => "全体設定",
        RawKey::InputTimeoutLabel => "入力タイムアウト (ms)：",
        RawKey::DefaultIntervalLabel => "既定の間隔 (ms)：",
        RawKey::DefaultDurationLabel => "既定の押下時間 (ms)：",
        RawKey::MouseMovePerEventMinLabel => "マウス移動ノイズ閾値 (px)：",
        RawKey::MouseMovePerEventMinHint => "これより小さいマウス移動は無視されます。",
        RawKey::MouseMoveMinTriggerLabel => "マウス移動トリガー距離 (px)：",
        RawKey::MouseMoveMinTriggerHint => "方向トリガーの発動に必要な累積移動量です。",
        RawKey::MouseMoveRearmLabel => "マウス移動再装填距離 (px)：",
        RawKey::MouseMoveRearmHint => "同じ方向を再び発動するまでに必要な逆方向の移動量です。",
        RawKey::WorkerCountLabel => "ワーカー数：",
        RawKey::TriggerShort => "トリガー",
        RawKey::TargetShort => "ターゲット",
        RawKey::IntShort => "間隔",
        RawKey::DurShort => "時間",
        RawKey::AddNewMappingTitle => "新しいマッピングを追加",
        RawKey::AddBtn => "➕ 追加",
        RawKey::ProcessWhitelistHint => "プロセスホワイトリスト（空 = すべてのプロセス）：",
        RawKey::ProcessExample => "例：notepad.exe",
        RawKey::BrowseBtn => "📂 参照",
        RawKey::SaveChangesBtn => "💾 変更を保存",
        RawKey::CancelSettingsBtn => "キャンセル",
        RawKey::ChangesTakeEffect => "変更は保存後に反映されます。",
        RawKey::CloseWindowTitle => "ウィンドウを閉じる",
        RawKey::CloseSubtitle => "どうしますか？",
        RawKey::MinimizeToTrayBtn => "トレイに最小化",
        RawKey::ExitProgramBtn => "プログラムを終了",
        RawKey::CancelCloseBtn => "キャンセル",
        RawKey::ErrorTitle => "エラー",
        RawKey::Close => "閉じる",
        RawKey::DuplicateTriggerError => "このトリガーキーは既にマッピングされています。",
        RawKey::DuplicateProcessError => "このプロセスは既にホワイトリストにあります。",
        RawKey::AboutDescriptionLine1 => "軽量な自動キー入力ツールです。",
        RawKey::AboutDescriptionLine2 => "連打、シーケンス、デバイス入力をひとつに。",
        RawKey::Author => "作者：",
        RawKey::GitHub => "GitHub：",
        RawKey::License => "ライセンス：",
        RawKey::BuiltWith => "使用技術：",
        RawKey::AboutInspired => "クラシックな連射コントローラーに着想を得ました。",
        RawKey::TurboOnHover => "連射オン：押している間繰り返す",
        RawKey::TurboOffHover => "連射オフ：トリガーの押下と解放に追従",
        RawKey::HidActivationTitle => "デバイスのアクティベーション",
        RawKey::HidActivationPressPrompt => "デバイスのボタンをひとつ押し続けてください。",
        RawKey::HidActivationReleasePrompt => "ボタンを離してください。",
        RawKey::HidActivationWarningTitle => "注意",
        RawKey::HidActivationWarning1 => "一度にひとつのボタンだけを押してください。",
        RawKey::HidActivationWarning2 => "スティックやトリガーを動かさないでください。",
        RawKey::HidActivationWarning3 => "待機状態が基準として記録されます。",
        RawKey::HidActivationSuccessTitle => "アクティベーション完了",
        RawKey::HidActivationSuccessMessage => "デバイスを使用できます。",
        RawKey::HidActivationSuccessHint => "設定でボタンを取得できるようになりました。",
        RawKey::HidActivationAutoClose => "このウィンドウは自動的に閉じます。",
        RawKey::HidActivationFailedTitle => "アクティベーション失敗",
        RawKey::HidActivationError => "デバイスの状態を記録できませんでした。",
        RawKey::HidActivationRetry => "再試行",
        RawKey::HidActivationCancel => "キャンセル",
        RawKey::MouseMoveDirectionLabel => "マウス移動方向",
        RawKey::MouseMoveUp => "↑ 上",
        RawKey::MouseMoveDown => "↓ 下",
        RawKey::MouseMoveLeft => "← 左",
        RawKey::MouseMoveRight => "→ 右",
        RawKey::MouseMoveUpLeft => "↖ 左上",
        RawKey::MouseMoveUpRight => "↗ 右上",
        RawKey::MouseMoveDownLeft => "↙ 左下",
        RawKey::MouseMoveDownRight => "↘ 右下",
        RawKey::SetMouseDirectionHover => "マウス移動方向を設定",
        RawKey::MouseScrollDirectionLabel => "マウススクロール方向",
        RawKey::MouseScrollUp => "⬆ 上スクロール",
        RawKey::MouseScrollDown => "⬇ 下スクロール",
        RawKey::MouseMiddleButton => "中ボタン",
        RawKey::SetMouseScrollDirectionHover => "マウススクロール方向を設定",
        RawKey::SpeedLabel => "速度：",
        RawKey::RawInputCaptureModeLabel => "Raw Input 取得モード：",
        RawKey::XInputCaptureModeLabel => "XInput 取得モード：",
        RawKey::CaptureModeMostSustained => "最長持続",
        RawKey::CaptureModeAdaptiveIntelligent => "アダプティブ",
        RawKey::CaptureModeMaxChangedBits => "変化ビット最大",
        RawKey::CaptureModeMaxSetBits => "セットビット最大",
        RawKey::CaptureModeLastStable => "最終安定",
        RawKey::CaptureModeHatSwitchOptimized => "ハットスイッチ最適化",
        RawKey::CaptureModeAnalogOptimized => "アナログ最適化",
        RawKey::CaptureModeDiagonalPriority => "斜め優先",
        RawKey::AddTargetKeyHover => "ターゲットキーを追加",
        RawKey::AddSequenceKeyHover => "シーケンスにキーを追加",
        RawKey::ClearAllTriggerKeysHover => "トリガーキーをすべて消去",
        RawKey::ClearAllTargetKeysHover => "ターゲットキーをすべて消去",
        RawKey::DiagonalHintTitle => "斜め入力",
        RawKey::DiagonalHint => "2 方向を同時に押すと斜めが記録されます。",
        RawKey::TriggerModeLabel => "トリガーモード：",
        RawKey::TriggerModeSingle => "単一キー",
        RawKey::TriggerModeSequence => "シーケンス",
        RawKey::TriggerModeSingleBadge => "キー",
        RawKey::TriggerModeSequenceBadge => "連続",
        RawKey::SequenceTriggerExplanation => "時間枠内に順番どおりに入力すると発動します。",
        RawKey::SequenceWindowLabel => "時間枠 (ms)：",
        RawKey::SequenceWindowHint => "シーケンスを完了するまでの最大時間です。",
        RawKey::SequenceCapturing => "シーケンスを記録中...",
        RawKey::SequenceCaptureHint => "キーを順番に入力し、確定キーを押してください。",
        RawKey::SequenceComplete => "✔ 完了",
        RawKey::SequenceClearBtn => "クリア",
        RawKey::SequenceExampleLabel => "例：",
        RawKey::TargetModeLabel => "ターゲットモード：",
        RawKey::TargetModeSingle => "単一",
        RawKey::TargetModeMulti => "複数",
        RawKey::TargetModeSequence => "シーケンス",
        RawKey::TargetModeSingleBadge => "単一",
        RawKey::TargetModeMultiBadge => "複数",
        RawKey::TargetModeSequenceBadge => "連続",
        RawKey::TargetModeMultiExplanation => "すべてのターゲットキーを同時に押します。",
        RawKey::TargetModeSequenceExplanation => "ターゲットキーを順番に押します。",
        RawKey::TargetSequenceOutputHint => "キーは表示順に送信されます。",
        RawKey::DevicesBtn => "🎮 デバイス",
        RawKey::DeviceManagerTitle => "デバイスマネージャー",
        RawKey::ConnectedDevicesTitle => "接続中のデバイス",
        RawKey::RefreshBtn => "🔄 更新",
        RawKey::XInputControllersTitle => "XInput コントローラー",
        RawKey::NoControllersConnected => "コントローラーが接続されていません",
        RawKey::HidDevicesTitle => "HID デバイス",
        RawKey::NoHidDevicesDetected => "HID デバイスが見つかりません",
        RawKey::SlotLabel => "スロット",
        RawKey::HideBtn => "隠す",
        RawKey::DeviceSettingsBtn => "⚙ デバイス設定",
        RawKey::VibrationControlTitle => "振動",
        RawKey::LeftMotorLabel => "左モーター：",
        RawKey::RightMotorLabel => "右モーター：",
        RawKey::PowerLabel => "強さ：",
        RawKey::TestVibrationBtn => "振動テスト",
        RawKey::StopVibrationBtn => "振動停止",
        RawKey::DeadzoneSettingsTitle => "デッドゾーン",
        RawKey::StickLabel => "スティック：",
        RawKey::TriggerLabelShort => "トリガー：",
        RawKey::ThresholdLabel => "閾値：",
        RawKey::PreferredApiLabel => "優先 API：",
        RawKey::ApiAuto => "自動",
        RawKey::ApiXInput => "XInput",
        RawKey::ApiRawInput => "Raw Input",
        RawKey::ReactivateBtn => "再アクティベート",
        RawKey::AllDevicesFilter => "すべてのデバイス",
        RawKey::GameDevicesOnlyFilter => "ゲームデバイスのみ",
        RawKey::NoGameDevicesDetected => "ゲームデバイスが見つかりません",
        RawKey::TrayActivate => "有効化",
        RawKey::TrayPause => "一時停止",
        RawKey::TrayShowWindow => "ウィンドウを表示",
        RawKey::TrayAbout => "情報",
        RawKey::TrayExit => "終了",
        RawKey::TrayNotificationLaunched => "Sorahk はバックグラウンドで実行中です。",
        RawKey::TrayNotificationActivated => "Sorahk が有効になりました。",
        RawKey::TrayNotificationPaused => "Sorahk が一時停止しました。",
        RawKey::SequenceIcon => "🔗",
        RawKey::TargetIcon => "🎯",
        RawKey::ArrowIcon => "→",
        RawKey::DeleteIcon => "🗑",
        RawKey::KeysText => "キー",
        RawKey::TargetsText => "ターゲット",
        RawKey::RulePropsButton => "⚙ ルール",
        RawKey::RulePropsDialogTitle => "ルールのプロパティ",
        RawKey::RulePropsHint => "印を付けたキーは本体の再生後も押されたままになり、追加キーはその後に押されます。",
        RawKey::RulePropsHoldColumn => "保持",
        RawKey::RulePropsAppendLabel => "追加キー：",
        RawKey::RulePropsAddAppend => "➕ 追加",
        RawKey::RulePropsAppendPlaceholder => "キー名",
        RawKey::RulePropsSave => "保存",
        RawKey::RulePropsCancel => "キャンセル",
        RawKey::PresetTitle => "プリセット",
        RawKey::PresetSaveBtn => "💾 プリセットを保存",
        RawKey::PresetDeleteBtn => "🗑 削除",
        RawKey::PresetRenameBtn => "✏ 名前を変更",
        RawKey::PresetNameHint => "プリセット名",
        RawKey::NoPreset => "（なし）",
        RawKey::NoteLabel => "メモ：",
        RawKey::NoteHint => "このマッピングのメモ（任意）",
    }
}

} // verus!
