//! Simplified Chinese user interface texts.

use vstd::prelude::*;

use super::raw_key::RawKey;

verus! {

/// The Simplified Chinese text for each key.
pub open spec fn zh_cn_text(key: RawKey) -> Seq<char> {
    match key {
        RawKey::AppTitle => "Sorahk"@,
        RawKey::SettingsBtn => "⚙ 设置"@,
        RawKey::AboutBtn => "❓ 关于"@,
        RawKey::Dark => "🌙 深色"@,
        RawKey::Light => "☀ 浅色"@,
        RawKey::StatusTitle => "状态"@,
        RawKey::Paused => "已暂停"@,
        RawKey::Running => "运行中"@,
        RawKey::PauseBtn => "⏸ 暂停"@,
        RawKey::StartBtn => "▶ 启动"@,
        RawKey::ExitBtn => "✖ 退出"@,
        RawKey::HotkeySettingsTitle => "快捷键设置"@,
        RawKey::ToggleKeyLabel => "切换键："@,
        RawKey::ClickToSet => "点击设置"@,
        RawKey::ConfigSettingsTitle => "配置"@,
        RawKey::InputTimeoutDisplay => "输入超时："@,
        RawKey::DefaultIntervalDisplay => "默认间隔："@,
        RawKey::DefaultDurationDisplay => "默认持续时间："@,
        RawKey::ShowTrayIconDisplay => "显示托盘图标："@,
        RawKey::ShowNotificationsDisplay => "显示通知："@,
        RawKey::AlwaysOnTopDisplay => "窗口置顶："@,
        RawKey::Yes => "是"@,
        RawKey::No => "否"@,
        RawKey::KeyMappingsTitle => "按键映射"@,
        RawKey::SettingsDialogTitle => "设置"@,
        RawKey::Language => "语言："@,
        RawKey::DarkMode => "深色模式："@,
        RawKey::AlwaysOnTop => "窗口置顶："@,
        RawKey::ShowTrayIcon => "显示托盘图标："@,
        RawKey::ShowNotifications => "显示通知："@,
        RawKey::ToggleKeySection => "快捷键"@,
        RawKey::SequenceFinalizeRowLabel => "结束序列键："@,
        RawKey::SequenceFinalizeHint => "录制序列时按下此键结束录制，该键本身不会被记录。"@,
        RawKey::PressAnyKey => "请按任意键..."@,
        RawKey::ClickToSetTrigger => "点击设置触发键"@,
        RawKey::ClickToSetTarget => "点击设置目标键"@,
        RawKey::GlobalConfigTitle => "全局配置"@,
        RawKey::InputTimeoutLabel => "输入超时（毫秒）："@,
        RawKey::DefaultIntervalLabel => "默认间隔（毫秒）："@,
        RawKey::DefaultDurationLabel => "默认持续时间（毫秒）："@,
        RawKey::MouseMovePerEventMinLabel => "鼠标移动噪声阈值（像素）："@,
        RawKey::MouseMovePerEventMinHint => "小于此距离的鼠标事件将被忽略。"@,
        RawKey::MouseMoveMinTriggerLabel => "鼠标移动触发距离（像素）："@,
        RawKey::MouseMoveMinTriggerHint => "触发方向所需的累计移动距离。"@,
        RawKey::MouseMoveRearmLabel => "鼠标移动重置距离（像素）："@,
        RawKey::MouseMoveRearmHint => "同一方向再次触发前所需的反向移动距离。"@,
        RawKey::WorkerCountLabel => "工作线程数："@,
        RawKey::TriggerShort => "触发"@,
        RawKey::TargetShort => "目标"@,
        RawKey::IntShort => "间隔"@,
        RawKey::DurShort => "时长"@,
        RawKey::AddNewMappingTitle => "添加新映射"@,
        RawKey::AddBtn => "➕ 添加"@,
        RawKey::ProcessWhitelistHint => "进程白名单（为空表示所有进程）："@,
        RawKey::ProcessExample => "例如 notepad.exe"@,
        RawKey::BrowseBtn => "📂 浏览"@,
        RawKey::SaveChangesBtn => "💾 保存更改"@,
        RawKey::CancelSettingsBtn => "取消"@,
        RawKey::ChangesTakeEffect => "保存后更改生效。"@,
        RawKey::CloseWindowTitle => "关闭窗口"@,
        RawKey::CloseSubtitle => "您想要做什么？"@,
        RawKey::MinimizeToTrayBtn => "最小化到托盘"@,
        RawKey::ExitProgramBtn => "退出程序"@,
        RawKey::CancelCloseBtn => "取消"@,
        RawKey::ErrorTitle => "错误"@,
        RawKey::Close => "关闭"@,
        RawKey::DuplicateTriggerError => "该触发键已存在映射。"@,
        RawKey::DuplicateProcessError => "该进程已在白名单中。"@,
        RawKey::AboutDescriptionLine1 => "一款轻量级的自动按键工具。"@,
        RawKey::AboutDescriptionLine2 => "集连发、序列与设备输入于一体。"@,
        RawKey::Author => "作者："@,
        RawKey::GitHub => "GitHub："@,
        RawKey::License => "许可证："@,
        RawKey::BuiltWith => "构建工具："@,
        RawKey::AboutInspired => "灵感来自经典的连发手柄。"@,
        RawKey::TurboOnHover => "连发开启：按住时重复"@,
        RawKey::TurboOffHover => "连发关闭：跟随触发键按下与松开"@,
        RawKey::HidActivationTitle => "设备激活"@,
        RawKey::HidActivationPressPrompt => "请按住设备上的一个按钮。"@,
        RawKey::HidActivationReleasePrompt => "现在松开按钮。"@,
        RawKey::HidActivationWarningTitle => "请注意"@,
        RawKey::HidActivationWarning1 => "每次只按一个按钮。"@,
        RawKey::HidActivationWarning2 => "不要移动摇杆或扳机。"@,
        RawKey::HidActivationWarning3 => "空闲状态将被记录为基准。"@,
        RawKey::HidActivationSuccessTitle => "激活成功"@,
        RawKey::HidActivationSuccessMessage => "设备已可以使用。"@,
        RawKey::HidActivationSuccessHint => "现在可以在设置中捕获其按钮。"@,
        RawKey::HidActivationAutoClose => "此窗口将自动关闭。"@,
        RawKey::HidActivationFailedTitle => "激活失败"@,
        RawKey::HidActivationError => "无法记录设备状态。"@,
        RawKey::HidActivationRetry => "重试"@,
        RawKey::HidActivationCancel => "取消"@,
        RawKey::MouseMoveDirectionLabel => "鼠标移动方向"@,
        RawKey::MouseMoveUp => "↑ 上"@,
        RawKey::MouseMoveDown => "↓ 下"@,
        RawKey::MouseMoveLeft => "← 左"@,
        RawKey::MouseMoveRight => "→ 右"@,
        RawKey::MouseMoveUpLeft => "↖ 左上"@,
        RawKey::MouseMoveUpRight => "↗ 右上"@,
        RawKey::MouseMoveDownLeft => "↙ 左下"@,
        RawKey::MouseMoveDownRight => "↘ 右下"@,
        RawKey::SetMouseDirectionHover => "设置鼠标移动方向"@,
        RawKey::MouseScrollDirectionLabel => "鼠标滚轮方向"@,
        RawKey::MouseScrollUp => "⬆ 向上滚动"@,
        RawKey::MouseScrollDown => "⬇ 向下滚动"@,
        RawKey::MouseMiddleButton => "鼠标中键"@,
        RawKey::SetMouseScrollDirectionHover => "设置鼠标滚轮方向"@,
        RawKey::SpeedLabel => "速度："@,
        RawKey::RawInputCaptureModeLabel => "Raw Input 捕获模式："@,
        RawKey::XInputCaptureModeLabel => "XInput 捕获模式："@,
        RawKey::CaptureModeMostSustained => "最持久"@,
        RawKey::CaptureModeAdaptiveIntelligent => "自适应"@,
        RawKey::CaptureModeMaxChangedBits => "变化位最多"@,
        RawKey::CaptureModeMaxSetBits => "置位最多"@,
        RawKey::CaptureModeLastStable => "最后稳定"@,
        RawKey::CaptureModeHatSwitchOptimized => "方向帽优化"@,
        RawKey::CaptureModeAnalogOptimized => "模拟量优化"@,
        RawKey::CaptureModeDiagonalPriority => "斜向优先"@,
        RawKey::AddTargetKeyHover => "添加目标键"@,
        RawKey::AddSequenceKeyHover => "向序列添加按键"@,
        RawKey::ClearAllTriggerKeysHover => "清除所有触发键"@,
        RawKey::ClearAllTargetKeysHover => "清除所有目标键"@,
        RawKey::DiagonalHintTitle => "斜向输入"@,
        RawKey::DiagonalHint => "同时按下两个方向以记录斜向。"@,
        RawKey::TriggerModeLabel => "触发模式："@,
        RawKey::TriggerModeSingle => "单键"@,
        RawKey::TriggerModeSequence => "序列"@,
        RawKey::TriggerModeSingleBadge => "单键"@,
        RawKey::TriggerModeSequenceBadge => "序列"@,
        RawKey::SequenceTriggerExplanation => "在时间窗口内按顺序输入这些按键时触发。"@,
        RawKey::SequenceWindowLabel => "时间窗口（毫秒）："@,
        RawKey::SequenceWindowHint => "完成序列的最长时间。"@,
        RawKey::SequenceCapturing => "正在录制序列..."@,
        RawKey::SequenceCaptureHint => "按顺序输入按键，然后按结束键。"@,
        RawKey::SequenceComplete => "✔ 完成"@,
        RawKey::SequenceClearBtn => "清除"@,
        RawKey::SequenceExampleLabel => "示例："@,
        RawKey::TargetModeLabel => "目标模式："@,
        RawKey::TargetModeSingle => "单个"@,
        RawKey::TargetModeMulti => "多键"@,
        RawKey::TargetModeSequence => "序列"@,
        RawKey::TargetModeSingleBadge => "单个"@,
        RawKey::TargetModeMultiBadge => "多键"@,
        RawKey::TargetModeSequenceBadge => "序列"@,
        RawKey::TargetModeMultiExplanation => "所有目标键同时按下。"@,
        RawKey::TargetModeSequenceExplanation => "目标键依次按下。"@,
        RawKey::TargetSequenceOutputHint => "按键将按显示的顺序发送。"@,
        RawKey::DevicesBtn => "🎮 设备"@,
        RawKey::DeviceManagerTitle => "设备管理"@,
        RawKey::ConnectedDevicesTitle => "已连接设备"@,
        RawKey::RefreshBtn => "🔄 刷新"@,
        RawKey::XInputControllersTitle => "XInput 控制器"@,
        RawKey::NoControllersConnected => "未连接控制器"@,
        RawKey::HidDevicesTitle => "HID 设备"@,
        RawKey::NoHidDevicesDetected => "未检测到 HID 设备"@,
        RawKey::SlotLabel => "槽位"@,
        RawKey::HideBtn => "隐藏"@,
        RawKey::DeviceSettingsBtn => "⚙ 设备设置"@,
        RawKey::VibrationControlTitle => "振动"@,
        RawKey::LeftMotorLabel => "左马达："@,
        RawKey::RightMotorLabel => "右马达："@,
        RawKey::PowerLabel => "强度："@,
        RawKey::TestVibrationBtn => "测试振动"@,
        RawKey::StopVibrationBtn => "停止振动"@,
        RawKey::DeadzoneSettingsTitle => "死区"@,
        RawKey::StickLabel => "摇杆："@,
        RawKey::TriggerLabelShort => "扳机："@,
        RawKey::ThresholdLabel => "阈值："@,
        RawKey::PreferredApiLabel => "首选接口："@,
        RawKey::ApiAuto => "自动"@,
        RawKey::ApiXInput => "XInput"@,
        RawKey::ApiRawInput => "Raw Input"@,
        RawKey::ReactivateBtn => "重新激活"@,
        RawKey::AllDevicesFilter => "所有设备"@,
        RawKey::GameDevicesOnlyFilter => "仅游戏设备"@,
        RawKey::NoGameDevicesDetected => "未检测到游戏设备"@,
        RawKey::TrayActivate => "启用"@,
        RawKey::TrayPause => "暂停"@,
        RawKey::TrayShowWindow => "显示窗口"@,
        RawKey::TrayAbout => "关于"@,
        RawKey::TrayExit => "退出"@,
        RawKey::TrayNotificationLaunched => "Sorahk 正在后台运行。"@,
        RawKey::TrayNotificationActivated => "Sorahk 已启用。"@,
        RawKey::TrayNotificationPaused => "Sorahk 已暂停。"@,
        RawKey::SequenceIcon => "🔗"@,
        RawKey::TargetIcon => "🎯"@,
        RawKey::ArrowIcon => "→"@,
        RawKey::DeleteIcon => "🗑"@,
        RawKey::KeysText => "个按键"@,
        RawKey::TargetsText => "个目标"@,
        RawKey::RulePropsButton => "⚙ 规则"@,
        RawKey::RulePropsDialogTitle => "规则属性"@,
        RawKey::RulePropsHint => "标记的按键在主体执行后保持按下；追加键随后按下。"@,
        RawKey::RulePropsHoldColumn => "保持"@,
        RawKey::RulePropsAppendLabel => "追加按键："@,
        RawKey::RulePropsAddAppend => "➕ 添加"@,
        RawKey::RulePropsAppendPlaceholder => "按键名称"@,
        RawKey::RulePropsSave => "保存"@,
        RawKey::RulePropsCancel => "取消"@,
        RawKey::PresetTitle => "预设"@,
        RawKey::PresetSaveBtn => "💾 保存预设"@,
        RawKey::PresetDeleteBtn => "🗑 删除"@,
        RawKey::PresetRenameBtn => "✏ 重命名"@,
        RawKey::PresetNameHint => "预设名称"@,
        RawKey::NoPreset => "（无）"@,
        RawKey::NoteLabel => "备注："@,
        RawKey::NoteHint => "此映射的可选备注"@,
    }
}

/// Looks up the Simplified Chinese text for `key`.
pub fn zh_cn_raw(key: RawKey) -> (s: &'static str)
    ensures
        s@ == zh_cn_text(key),
{
    match key {
        RawKey::AppTitle => "Sorahk",
        RawKey::SettingsBtn => "⚙ 设置",
        RawKey::AboutBtn => "❓ 关于",
        RawKey::Dark => "🌙 深色",
        RawKey::Light => "☀ 浅色",
        RawKey::StatusTitle => "状态",
        RawKey::Paused => "已暂停",
        RawKey::Running => "运行中",
        RawKey::PauseBtn => "⏸ 暂停",
        RawKey::StartBtn => "▶ 启动",
        RawKey::ExitBtn => "✖ 退出",
        RawKey::HotkeySettingsTitle => "快捷键设置",
        RawKey::ToggleKeyLabel => "切换键：",
        RawKey::ClickToSet => "点击设置",
        RawKey::ConfigSettingsTitle => "配置",
        RawKey::InputTimeoutDisplay => "输入超时：",
        RawKey::DefaultIntervalDisplay => "默认间隔：",
        RawKey::DefaultDurationDisplay => "默认持续时间：",
        RawKey::ShowTrayIconDisplay => "显示托盘图标：",
        RawKey::ShowNotificationsDisplay => "显示通知：",
        RawKey::AlwaysOnTopDisplay => "窗口置顶：",
        RawKey::Yes => "是",
        RawKey::No => "否",
        RawKey::KeyMappingsTitle => "按键映射",
        RawKey::SettingsDialogTitle => "设置",
        RawKey::Language => "语言：",
        RawKey::DarkMode => "深色模式：",
        RawKey::AlwaysOnTop => "窗口置顶：",
        RawKey::ShowTrayIcon => "显示托盘图标：",
        RawKey::ShowNotifications => "显示通知：",
        RawKey::ToggleKeySection => "快捷键",
        RawKey::SequenceFinalizeRowLabel => "结束序列键：",
        RawKey::SequenceFinalizeHint => "录制序列时按下此键结束录制，该键本身不会被记录。",
        RawKey::PressAnyKey => "请按任意键...",
        RawKey::ClickToSetTrigger => "点击设置触发键",
        RawKey::ClickToSetTarget => "点击设置目标键",
        RawKey::GlobalConfigTitle => "全局配置",
        RawKey::InputTimeoutLabel => "输入超时（毫秒）：",
        RawKey::DefaultIntervalLabel => "默认间隔（毫秒）：",
        RawKey::DefaultDurationLabel => "默认持续时间（毫秒）：",
        RawKey::MouseMovePerEventMinLabel => "鼠标移动噪声阈值（像素）：",
        RawKey::MouseMovePerEventMinHint => "小于此距离的鼠标事件将被忽略。",
        RawKey::MouseMoveMinTriggerLabel => "鼠标移动触发距离（像素）：",
        RawKey::MouseMoveMinTriggerHint => "触发方向所需的累计移动距离。",
        RawKey::MouseMoveRearmLabel => "鼠标移动重置距离（像素）：",
        RawKey::MouseMoveRearmHint => "同一方向再次触发前所需的反向移动距离。",
        RawKey::WorkerCountLabel => "工作线程数：",
        RawKey::TriggerShort => "触发",
        RawKey::TargetShort => "目标",
        RawKey::IntShort => "间隔",
        RawKey::DurShort => "时长",
        RawKey::AddNewMappingTitle => "添加新映射",
        RawKey::AddBtn => "➕ 添加",
        RawKey::ProcessWhitelistHint => "进程白名单（为空表示所有进程）：",
        RawKey::ProcessExample => "例如 notepad.exe",
        RawKey::BrowseBtn => "📂 浏览",
        RawKey::SaveChangesBtn => "💾 保存更改",
        RawKey::CancelSettingsBtn => "取消",
        RawKey::ChangesTakeEffect => "保存后更改生效。",
        RawKey::CloseWindowTitle => "关闭窗口",
        RawKey::CloseSubtitle => "您想要做什么？",
        RawKey::MinimizeToTrayBtn => "最小化到托盘",
        RawKey::ExitProgramBtn => "退出程序",
        RawKey::CancelCloseBtn => "取消",
        RawKey::ErrorTitle => "错误",
        RawKey::Close => "关闭",
        RawKey::DuplicateTriggerError => "该触发键已存在映射。",
        RawKey::DuplicateProcessError => "该进程已在白名单中。",
        RawKey::AboutDescriptionLine1 => "一款轻量级的自动按键工具。",
        RawKey::AboutDescriptionLine2 => "集连发、序列与设备输入于一体。",
        RawKey::Author => "作者：",
        RawKey::GitHub => "GitHub：",
        RawKey::License => "许可证：",
        RawKey::BuiltWith => "构建工具：",
        RawKey::AboutInspired => "灵感来自经典的连发手柄。",
        RawKey::TurboOnHover => "连发开启：按住时重复",
        RawKey::TurboOffHover => "连发关闭：跟随触发键按下与松开",
        RawKey::HidActivationTitle => "设备激活",
        RawKey::HidActivationPressPrompt => "请按住设备上的一个按钮。",
        RawKey::HidActivationReleasePrompt => "现在松开按钮。",
        RawKey::HidActivationWarningTitle => "请注意",
        RawKey::HidActivationWarning1 => "每次只按一个按钮。",
        RawKey::HidActivationWarning2 => "不要移动摇杆或扳机。",
        RawKey::HidActivationWarning3 => "空闲状态将被记录为基准。",
        RawKey::HidActivationSuccessTitle => "激活成功",
        RawKey::HidActivationSuccessMessage => "设备已可以使用。",
        RawKey::HidActivationSuccessHint => "现在可以在设置中捕获其按钮。",
        RawKey::HidActivationAutoClose => "此窗口将自动关闭。",
        RawKey::HidActivationFailedTitle => "激活失败",
        RawKey::HidActivationError => "无法记录设备状态。",
        RawKey::HidActivationRetry => "重试",
        RawKey::HidActivationCancel => "取消",
        RawKey::MouseMoveDirectionLabel => "鼠标移动方向",
        RawKey::MouseMoveUp => "↑ 上",
        RawKey::MouseMoveDown => "↓ 下",
        RawKey::MouseMoveLeft => "← 左",
        RawKey::MouseMoveRight => "→ 右",
        RawKey::MouseMoveUpLeft => "↖ 左上",
        RawKey::MouseMoveUpRight => "↗ 右上",
        RawKey::MouseMoveDownLeft => "↙ 左下",
        RawKey::MouseMoveDownRight => "↘ 右下",
        RawKey::SetMouseDirectionHover => "设置鼠标移动方向",
        RawKey::MouseScrollDirectionLabel => "鼠标滚轮方向",
        RawKey::MouseScrollUp => "⬆ 向上滚动",
        RawKey::MouseScrollDown => "⬇ 向下滚动",
        RawKey::MouseMiddleButton => "鼠标中键",
        RawKey::SetMouseScrollDirectionHover => "设置鼠标滚轮方向",
        RawKey::SpeedLabel => "速度：",
        RawKey::RawInputCaptureModeLabel => "Raw Input 捕获模式：",
        RawKey::XInputCaptureModeLabel => "XInput 捕获模式：",
        RawKey::CaptureModeMostSustained => "最持久",
        RawKey::CaptureModeAdaptiveIntelligent => "自适应",
        RawKey::CaptureModeMaxChangedBits => "变化位最多",
        RawKey::CaptureModeMaxSetBits => "置位最多",
        RawKey::CaptureModeLastStable => "最后稳定",
        RawKey::CaptureModeHatSwitchOptimized => "方向帽优化",
        RawKey::CaptureModeAnalogOptimized => "模拟量优化",
        RawKey::CaptureModeDiagonalPriority => "斜向优先",
        RawKey::AddTargetKeyHover => "添加目标键",
        RawKey::AddSequenceKeyHover => "向序列添加按键",
        RawKey::ClearAllTriggerKeysHover => "清除所有触发键",
        RawKey::ClearAllTargetKeysHover => "清除所有目标键",
        RawKey::DiagonalHintTitle => "斜向输入",
        RawKey::DiagonalHint => "同时按下两个方向以记录斜向。",
        RawKey::TriggerModeLabel => "触发模式：",
        RawKey::TriggerModeSingle => "单键",
        RawKey::TriggerModeSequence => "序列",
        RawKey::TriggerModeSingleBadge => "单键",
        RawKey::TriggerModeSequenceBadge => "序列",
        RawKey::SequenceTriggerExplanation => "在时间窗口内按顺序输入这些按键时触发。",
        RawKey::SequenceWindowLabel => "时间窗口（毫秒）：",
        RawKey::SequenceWindowHint => "完成序列的最长时间。",
        RawKey::SequenceCapturing => "正在录制序列...",
        RawKey::SequenceCaptureHint => "按顺序输入按键，然后按结束键。",
        RawKey::SequenceComplete => "✔ 完成",
        RawKey::SequenceClearBtn => "清除",
        RawKey::SequenceExampleLabel => "示例：",
        RawKey::TargetModeLabel => "目标模式：",
        RawKey::TargetModeSingle => "单个",
        RawKey::TargetModeMulti => "多键",
        RawKey::TargetModeSequence => "序列",
        RawKey::TargetModeSingleBadge => "单个",
        RawKey::TargetModeMultiBadge => "多键",
        RawKey::TargetModeSequenceBadge => "序列",
        RawKey::TargetModeMultiExplanation => "所有目标键同时按下。",
        RawKey::TargetModeSequenceExplanation => "目标键依次按下。",
        RawKey::TargetSequenceOutputHint => "按键将按显示的顺序发送。",
        RawKey::DevicesBtn => "🎮 设备",
        RawKey::DeviceManagerTitle => "设备管理",
        RawKey::ConnectedDevicesTitle => "已连接设备",
        RawKey::RefreshBtn => "🔄 刷新",
        RawKey::XInputControllersTitle => "XInput 控制器",
        RawKey::NoControllersConnected => "未连接控制器",
        RawKey::HidDevicesTitle => "HID 设备",
        RawKey::NoHidDevicesDetected => "未检测到 HID 设备",
        RawKey::SlotLabel => "槽位",
        RawKey::HideBtn => "隐藏",
        RawKey::DeviceSettingsBtn => "⚙ 设备设置",
        RawKey::VibrationControlTitle => "振动",
        RawKey::LeftMotorLabel => "左马达：",
        RawKey::RightMotorLabel => "右马达：",
        RawKey::PowerLabel => "强度：",
        RawKey::TestVibrationBtn => "测试振动",
        RawKey::StopVibrationBtn => "停止振动",
        RawKey::DeadzoneSettingsTitle => "死区",
        RawKey::StickLabel => "摇杆：",
        RawKey::TriggerLabelShort => "扳机：",
        RawKey::ThresholdLabel => "阈值：",
        RawKey::PreferredApiLabel => "首选接口：",
        RawKey::ApiAuto => "自动",
        RawKey::ApiXInput => "XInput",
        RawKey::ApiRawInput => "Raw Input",
        RawKey::ReactivateBtn => "重新激活",
        RawKey::AllDevicesFilter => "所有设备",
        RawKey::GameDevicesOnlyFilter => "仅游戏设备",
        RawKey::NoGameDevicesDetected => "未检测到游戏设备",
        RawKey::TrayActivate => "启用",
        RawKey::TrayPause => "暂停",
        RawKey::TrayShowWindow => "显示窗口",
        RawKey::TrayAbout => "关于",
        RawKey::TrayExit => "退出",
        RawKey::TrayNotificationLaunched => "Sorahk 正在后台运行。",
        RawKey::TrayNotificationActivated => "Sorahk 已启用。",
        RawKey::TrayNotificationPaused => "Sorahk 已暂停。",
        RawKey::SequenceIcon => "🔗",
        RawKey::TargetIcon => "🎯",
        RawKey::ArrowIcon => "→",
        RawKey::DeleteIcon => "🗑",
        RawKey::KeysText => "个按键",
        RawKey::TargetsText => "个目标",
        RawKey::RulePropsButton => "⚙ 规则",
        RawKey::RulePropsDialogTitle => "规则属性",
        RawKey::RulePropsHint => "标记的按键在主体执行后保持按下；追加键随后按下。",
        RawKey::RulePropsHoldColumn => "保持",
        RawKey::RulePropsAppendLabel => "追加按键：",
        RawKey::RulePropsAddAppend => "➕ 添加",
        RawKey::RulePropsAppendPlaceholder => "按键名称",
        RawKey::RulePropsSave => "保存",
        RawKey::RulePropsCancel => "取消",
        RawKey::PresetTitle => "预设",
        RawKey::PresetSaveBtn => "💾 保存预设",
        RawKey::PresetDeleteBtn => "🗑 删除",
        RawKey::PresetRenameBtn => "✏ 重命名",
        RawKey::PresetNameHint => "预设名称",
        RawKey::NoPreset => "（无）",
        RawKey::NoteLabel => "备注：",
        RawKey::NoteHint => "此映射的可选备注",
    }
}

} // verus!
