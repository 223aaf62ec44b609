//! Korean user interface texts.

use vstd::prelude::*;

use super::raw_key::RawKey;

verus! {

/// The Korean text for each key.
pub open spec fn ko_text(key: RawKey) -> Seq<char> {
    match key {
        RawKey::AppTitle => "Sorahk"@,
        RawKey::SettingsBtn => "⚙ 설정"@,
        RawKey::AboutBtn => "❓ 정보"@,
        RawKey::Dark => "🌙 다크"@,
        RawKey::Light => "☀ 라이트"@,
        RawKey::StatusTitle => "상태"@,
        RawKey::Paused => "일시 정지됨"@,
        RawKey::Running => "실행 중"@,
        RawKey::PauseBtn => "⏸ 일시 정지"@,
        RawKey::StartBtn => "▶ 시작"@,
        RawKey::ExitBtn => "✖ 종료"@,
        RawKey::HotkeySettingsTitle => "단축키 설정"@,
        RawKey::ToggleKeyLabel => "전환 키:"@,
        RawKey::ClickToSet => "클릭하여 설정"@,
        RawKey::ConfigSettingsTitle => "구성"@,
        RawKey::InputTimeoutDisplay => "입력 시간 초과:"@,
        RawKey::DefaultIntervalDisplay => "기본 간격:"@,
        RawKey::DefaultDurationDisplay => "기본 지속 시간:"@,
        RawKey::ShowTrayIconDisplay => "트레이 아이콘 표시:"@,
        RawKey::ShowNotificationsDisplay => "알림 표시:"@,
        RawKey::AlwaysOnTopDisplay => "항상 위:"@,
        RawKey::Yes => "예"@,
        RawKey::No => "아니요"@,
        RawKey::KeyMappingsTitle => "키 매핑"@,
        RawKey::SettingsDialogTitle => "설정"@,
        RawKey::Language => "언어:"@,
        RawKey::DarkMode => "다크 모드:"@,
        RawKey::AlwaysOnTop => "항상 위:"@,
        RawKey::ShowTrayIcon => "트레이 아이콘 표시:"@,
        RawKey::ShowNotifications => "알림 표시:"@,
        RawKey::ToggleKeySection => "단축키"@,
        RawKey::SequenceFinalizeRowLabel => "시퀀스 완료 키:"@,
        RawKey::SequenceFinalizeHint => "시퀀스 녹화 중 이 키를 누르면 녹화가 끝나며 이 키 자체는 기록되지 않습니다."@,
        RawKey::PressAnyKey => "아무 키나 누르세요..."@,
        RawKey::ClickToSetTrigger => "클릭하여 트리거 설정"@,
        RawKey::ClickToSetTarget => "클릭하여 대상 설정"@,
        RawKey::GlobalConfigTitle => "전역 설정"@,
        RawKey::InputTimeoutLabel => "입력 시간 초과 (ms):"@,
        RawKey::DefaultIntervalLabel => "기본 간격 (ms):"@,
        RawKey::DefaultDurationLabel => "기본 지속 시간 (ms):"@,
        RawKey::MouseMovePerEventMinLabel => "마우스 이동 노이즈 임계값 (px):"@,
        RawKey::MouseMovePerEventMinHint => "이보다 작은 마우스 이동은 무시됩니다."@,
        RawKey::MouseMoveMinTriggerLabel => "마우스 이동 트리거 거리 (px):"@,
        RawKey::MouseMoveMinTriggerHint => "방향 트리거 발동에 필요한 누적 이동량입니다."@,
        RawKey::MouseMoveRearmLabel => "마우스 이동 재무장 거리 (px):"@,
        RawKey::MouseMoveRearmHint => "같은 방향이 다시 발동하기 전에 필요한 반대 방향 이동량입니다."@,
        RawKey::WorkerCountLabel => "작업자 수:"@,
        RawKey::TriggerShort => "트리거"@,
        RawKey::TargetShort => "대상"@,
        RawKey::IntShort => "간격"@,
        RawKey::DurShort => "지속"@,
        RawKey::AddNewMappingTitle => "새 매핑 추가"@,
        RawKey::AddBtn => "➕ 추가"@,
        RawKey::ProcessWhitelistHint => "프로세스 허용 목록 (비어 있으면 모든 프로세스):"@,
        RawKey::ProcessExample => "예: notepad.exe"@,
        RawKey::BrowseBtn => "📂 찾아보기"@,
        RawKey::SaveChangesBtn => "💾 변경 사항 저장"@,
        RawKey::CancelSettingsBtn => "취소"@,
        RawKey::ChangesTakeEffect => "변경 사항은 저장 후 적용됩니다."@,
        RawKey::CloseWindowTitle => "창 닫기"@,
        RawKey::CloseSubtitle => "무엇을 하시겠습니까?"@,
        RawKey::MinimizeToTrayBtn => "트레이로 최소화"@,
        RawKey::ExitProgramBtn => "프로그램 종료"@,
        RawKey::CancelCloseBtn => "취소"@,
        RawKey::ErrorTitle => "오류"@,
        RawKey::Close => "닫기"@,
        RawKey::DuplicateTriggerError => "이 트리거 키는 이미 매핑되어 있습니다."@,
        RawKey::DuplicateProcessError => "이 프로세스는 이미 허용 목록에 있습니다."@,
        RawKey::AboutDescriptionLine1 => "가벼운 자동 키 입력 도구입니다."@,
        RawKey::AboutDescriptionLine2 => "연타, 시퀀스, 장치 입력을 한 곳에서."@,
        RawKey::Author => "작성자:"@,
        RawKey::GitHub => "GitHub:"@,
        RawKey::License => "라이선스:"@,
        RawKey::BuiltWith => "사용 기술:"@,
        RawKey::AboutInspired => "고전적인 연사 컨트롤러에서 영감을 받았습니다."@,
        RawKey::TurboOnHover => "연타 켜짐: 누르는 동안 반복"@,
        RawKey::TurboOffHover => "연타 꺼짐: 트리거 누름과 뗌을 따름"@,
        RawKey::HidActivationTitle => "장치 활성화"@,
        RawKey::HidActivationPressPrompt => "장치의 버튼 하나를 누르고 계세요."@,
        RawKey::HidActivationReleasePrompt => "이제 버튼을 놓으세요."@,
        RawKey::HidActivationWarningTitle => "주의"@,
        RawKey::HidActivationWarning1 => "한 번에 하나의 버튼만 누르세요."@,
        RawKey::HidActivationWarning2 => "스틱이나 트리거를 움직이지 마세요."@,
        RawKey::HidActivationWarning3 => "유휴 상태가 기준으로 기록됩니다."@,
        RawKey::HidActivationSuccessTitle => "활성화 완료"@,
        RawKey::HidActivationSuccessMessage => "장치를 사용할 수 있습니다."@,
        RawKey::HidActivationSuccessHint => "이제 설정에서 버튼을 캡처할 수 있습니다."@,
        RawKey::HidActivationAutoClose => "이 창은 자동으로 닫힙니다."@,
        RawKey::HidActivationFailedTitle => "활성화 실패"@,
        RawKey::HidActivationError => "장치 상태를 기록할 수 없습니다."@,
        RawKey::HidActivationRetry => "다시 시도"@,
        RawKey::HidActivationCancel => "취소"@,
        RawKey::MouseMoveDirectionLabel => "마우스 이동 방향"@,
        RawKey::MouseMoveUp => "↑ 위"@,
        RawKey::MouseMoveDown => "↓ 아래"@,
        RawKey::MouseMoveLeft => "← 왼쪽"@,
        RawKey::MouseMoveRight => "→ 오른쪽"@,
        RawKey::MouseMoveUpLeft => "↖ 왼쪽 위"@,
        RawKey::MouseMoveUpRight => "↗ 오른쪽 위"@,
        RawKey::MouseMoveDownLeft => "↙ 왼쪽 아래"@,
        RawKey::MouseMoveDownRight => "↘ 오른쪽 아래"@,
        RawKey::SetMouseDirectionHover => "마우스 이동 방향 설정"@,
        RawKey::MouseScrollDirectionLabel => "마우스 스크롤 방향"@,
        RawKey::MouseScrollUp => "⬆ 위로 스크롤"@,
        RawKey::MouseScrollDown => "⬇ 아래로 스크롤"@,
        RawKey::MouseMiddleButton => "가운데 버튼"@,
        RawKey::SetMouseScrollDirectionHover => "마우스 스크롤 방향 설정"@,
        RawKey::SpeedLabel => "속도:"@,
        RawKey::RawInputCaptureModeLabel => "Raw Input 캡처 모드:"@,
        RawKey::XInputCaptureModeLabel => "XInput 캡처 모드:"@,
        RawKey::CaptureModeMostSustained => "가장 오래 유지"@,
        RawKey::CaptureModeAdaptiveIntelligent => "적응형"@,
        RawKey::CaptureModeMaxChangedBits => "변경 비트 최대"@,
        RawKey::CaptureModeMaxSetBits => "설정 비트 최대"@,
        RawKey::CaptureModeLastStable => "마지막 안정"@,
        RawKey::CaptureModeHatSwitchOptimized => "햇 스위치 최적화"@,
        RawKey::CaptureModeAnalogOptimized => "아날로그 최적화"@,
        RawKey::CaptureModeDiagonalPriority => "대각선 우선"@,
        RawKey::AddTargetKeyHover => "대상 키 추가"@,
        RawKey::AddSequenceKeyHover => "시퀀스에 키 추가"@,
        RawKey::ClearAllTriggerKeysHover => "모든 트리거 키 지우기"@,
        RawKey::ClearAllTargetKeysHover => "모든 대상 키 지우기"@,
        RawKey::DiagonalHintTitle => "대각선 입력"@,
        RawKey::DiagonalHint => "두 방향을 함께 누르면 대각선이 기록됩니다."@,
        RawKey::TriggerModeLabel => "트리거 모드:"@,
        RawKey::TriggerModeSingle => "단일 키"@,
        RawKey::TriggerModeSequence => "시퀀스"@,
        RawKey::TriggerModeSingleBadge => "키"@,
        RawKey::TriggerModeSequenceBadge => "시퀀스"@,
        RawKey::SequenceTriggerExplanation => "시간 창 안에 순서대로 입력하면 발동합니다."@,
        RawKey::SequenceWindowLabel => "시간 창 (ms):"@,
        RawKey::SequenceWindowHint => "시퀀스를 완료하는 최대 시간입니다."@,
        RawKey::SequenceCapturing => "시퀀스 녹화 중..."@,
        RawKey::SequenceCaptureHint => "키를 순서대로 입력한 뒤 완료 키를 누르세요."@,
        RawKey::SequenceComplete => "✔ 완료"@,
        RawKey::SequenceClearBtn => "지우기"@,
        RawKey::SequenceExampleLabel => "예:"@,
        RawKey::TargetModeLabel => "대상 모드:"@,
        RawKey::TargetModeSingle => "단일"@,
        RawKey::TargetModeMulti => "다중"@,
        RawKey::TargetModeSequence => "시퀀스"@,
        RawKey::TargetModeSingleBadge => "단일"@,
        RawKey::TargetModeMultiBadge => "다중"@,
        RawKey::TargetModeSequenceBadge => "시퀀스"@,
        RawKey::TargetModeMultiExplanation => "모든 대상 키를 동시에 누릅니다."@,
        RawKey::TargetModeSequenceExplanation => "대상 키를 차례로 누릅니다."@,
        RawKey::TargetSequenceOutputHint => "키는 표시된 순서대로 전송됩니다."@,
        RawKey::DevicesBtn => "🎮 장치"@,
        RawKey::DeviceManagerTitle => "장치 관리자"@,
        RawKey::ConnectedDevicesTitle => "연결된 장치"@,
        RawKey::RefreshBtn => "🔄 새로 고침"@,
        RawKey::XInputControllersTitle => "XInput 컨트롤러"@,
        RawKey::NoControllersConnected => "연결된 컨트롤러 없음"@,
        RawKey::HidDevicesTitle => "HID 장치"@,
        RawKey::NoHidDevicesDetected => "감지된 HID 장치 없음"@,
        RawKey::SlotLabel => "슬롯"@,
        RawKey::HideBtn => "숨기기"@,
        RawKey::DeviceSettingsBtn => "⚙ 장치 설정"@,
        RawKey::VibrationControlTitle => "진동"@,
        RawKey::LeftMotorLabel => "왼쪽 모터:"@,
        RawKey::RightMotorLabel => "오른쪽 모터:"@,
        RawKey::PowerLabel => "세기:"@,
        RawKey::TestVibrationBtn => "진동 테스트"@,
        RawKey::StopVibrationBtn => "진동 중지"@,
        RawKey::DeadzoneSettingsTitle => "데드존"@,
        RawKey::StickLabel => "스틱:"@,
        RawKey::TriggerLabelShort => "트리거:"@,
        RawKey::ThresholdLabel => "임계값:"@,
        RawKey::PreferredApiLabel => "선호 API:"@,
        RawKey::ApiAuto => "자동"@,
        RawKey::ApiXInput => "XInput"@,
        RawKey::ApiRawInput => "Raw Input"@,
        RawKey::ReactivateBtn => "재활성화"@,
        RawKey::AllDevicesFilter => "모든 장치"@,
        RawKey::GameDevicesOnlyFilter => "게임 장치만"@,
        RawKey::NoGameDevicesDetected => "감지된 게임 장치 없음"@,
        RawKey::TrayActivate => "활성화"@,
        RawKey::TrayPause => "일시 정지"@,
        RawKey::TrayShowWindow => "창 표시"@,
        RawKey::TrayAbout => "정보"@,
        RawKey::TrayExit => "종료"@,
        RawKey::TrayNotificationLaunched => "Sorahk가 백그라운드에서 실행 중입니다."@,
        RawKey::TrayNotificationActivated => "Sorahk가 활성화되었습니다."@,
        RawKey::TrayNotificationPaused => "Sorahk가 일시 정지되었습니다."@,
        RawKey::SequenceIcon => "🔗"@,
        RawKey::TargetIcon => "🎯"@,
        RawKey::ArrowIcon => "→"@,
        RawKey::DeleteIcon => "🗑"@,
        RawKey::KeysText => "개 키"@,
        RawKey::TargetsText => "개 대상"@,
        RawKey::RulePropsButton => "⚙ 규칙"@,
        RawKey::RulePropsDialogTitle => "규칙 속성"@,
        RawKey::RulePropsHint => "표시한 키는 본문 재생 후에도 눌린 채로 유지되고, 추가 키는 그 뒤에 눌립니다."@,
        RawKey::RulePropsHoldColumn => "유지"@,
        RawKey::RulePropsAppendLabel => "추가 키:"@,
        RawKey::RulePropsAddAppend => "➕ 추가"@,
        RawKey::RulePropsAppendPlaceholder => "키 이름"@,
        RawKey::RulePropsSave => "저장"@,
        RawKey::RulePropsCancel => "취소"@,
        RawKey::PresetTitle => "프리셋"@,
        RawKey::PresetSaveBtn => "💾 프리셋 저장"@,
        RawKey::PresetDeleteBtn => "🗑 삭제"@,
        RawKey::PresetRenameBtn => "✏ 이름 변경"@,
        RawKey::PresetNameHint => "프리셋 이름"@,
        RawKey::NoPreset => "(없음)"@,
        RawKey::NoteLabel => "메모:"@,
        RawKey::NoteHint => "이 매핑에 대한 선택 메모"@,
    }
}

/// Looks up the Korean text for `key`.
pub fn ko_raw(key: RawKey) -> (s: &'static str)
    ensures
        s@ == ko_text(key),
{
    match key {
        RawKey::AppTitle => "Sorahk",
        RawKey::SettingsBtn => "⚙ 설정",
        RawKey::AboutBtn => "❓ 정보",
        RawKey::Dark => "🌙 다크",
        RawKey::Light => "☀ 라이트",
        RawKey::StatusTitle => "상태",
        RawKey::Paused => "일시 정지됨",
        RawKey::Running => "실행 중",
        RawKey::PauseBtn => "⏸ 일시 정지",
        RawKey::StartBtn => "▶ 시작",
        RawKey::ExitBtn => "✖ 종료",
        RawKey::HotkeySettingsTitle => "단축키 설정",
        RawKey::ToggleKeyLabel => "전환 키:",
        RawKey::ClickToSet => "클릭하여 설정",
        RawKey::ConfigSettingsTitle => "구성",
        RawKey::InputTimeoutDisplay => "입력 시간 초과:",
        RawKey::DefaultIntervalDisplay => "기본 간격:",
        RawKey::DefaultDurationDisplay => "기본 지속 시간:",
        RawKey::ShowTrayIconDisplay => "트레이 아이콘 표시:",
        RawKey::ShowNotificationsDisplay => "알림 표시:",
        RawKey::AlwaysOnTopDisplay => "항상 위:",
        RawKey::Yes => "예",
        RawKey::No => "아니요",
        RawKey::KeyMappingsTitle => "키 매핑",
        RawKey::SettingsDialogTitle => "설정",
        RawKey::Language => "언어:",
        RawKey::DarkMode => "다크 모드:",
        RawKey::AlwaysOnTop => "항상 위:",
        RawKey::ShowTrayIcon => "트레이 아이콘 표시:",
        RawKey::ShowNotifications => "알림 표시:",
        RawKey::ToggleKeySection => "단축키",
        RawKey::SequenceFinalizeRowLabel => "시퀀스 완료 키:",
        RawKey::SequenceFinalizeHint => "시퀀스 녹화 중 이 키를 누르면 녹화가 끝나며 이 키 자체는 기록되지 않습니다.",
        RawKey::PressAnyKey => "아무 키나 누르세요...",
        RawKey::ClickToSetTrigger => "클릭하여 트리거 설정",
        RawKey::ClickToSetTarget => "클릭하여 대상 설정",
        RawKey::GlobalConfigTitle => "전역 설정",
        RawKey::InputTimeoutLabel => "입력 시간 초과 (ms):",
        RawKey::DefaultIntervalLabel => "기본 간격 (ms):",
        RawKey::DefaultDurationLabel => "기본 지속 시간 (ms):",
        RawKey::MouseMovePerEventMinLabel => "마우스 이동 노이즈 임계값 (px):",
        RawKey::MouseMovePerEventMinHint => "이보다 작은 마우스 이동은 무시됩니다.",
        RawKey::MouseMoveMinTriggerLabel => "마우스 이동 트리거 거리 (px):",
        RawKey::MouseMoveMinTriggerHint => "방향 트리거 발동에 필요한 누적 이동량입니다.",
        RawKey::MouseMoveRearmLabel => "마우스 이동 재무장 거리 (px):",
        RawKey::MouseMoveRearmHint => "같은 방향이 다시 발동하기 전에 필요한 반대 방향 이동량입니다.",
        RawKey::WorkerCountLabel => "작업자 수:",
        RawKey::TriggerShort => "트리거",
        RawKey::TargetShort => "대상",
        RawKey::IntShort => "간격",
        RawKey::DurShort => "지속",
        RawKey::AddNewMappingTitle => "새 매핑 추가",
        RawKey::AddBtn => "➕ 추가",
        RawKey::ProcessWhitelistHint => "프로세스 허용 목록 (비어 있으면 모든 프로세스):",
        RawKey::ProcessExample => "예: notepad.exe",
        RawKey::BrowseBtn => "📂 찾아보기",
        RawKey::SaveChangesBtn => "💾 변경 사항 저장",
        RawKey::CancelSettingsBtn => "취소",
        RawKey::ChangesTakeEffect => "변경 사항은 저장 후 적용됩니다.",
        RawKey::CloseWindowTitle => "창 닫기",
        RawKey::CloseSubtitle => "무엇을 하시겠습니까?",
        RawKey::MinimizeToTrayBtn => "트레이로 최소화",
        RawKey::ExitProgramBtn => "프로그램 종료",
        RawKey::CancelCloseBtn => "취소",
        RawKey::ErrorTitle => "오류",
        RawKey::Close => "닫기",
        RawKey::DuplicateTriggerError => "이 트리거 키는 이미 매핑되어 있습니다.",
        RawKey::DuplicateProcessError => "이 프로세스는 이미 허용 목록에 있습니다.",
        RawKey::AboutDescriptionLine1 => "가벼운 자동 키 입력 도구입니다.",
        RawKey::AboutDescriptionLine2 => "연타, 시퀀스, 장치 입력을 한 곳에서.",
        RawKey::Author => "작성자:",
        RawKey::GitHub => "GitHub:",
        RawKey::License => "라이선스:",
        RawKey::BuiltWith => "사용 기술:",
        RawKey::AboutInspired => "고전적인 연사 컨트롤러에서 영감을 받았습니다.",
        RawKey::TurboOnHover => "연타 켜짐: 누르는 동안 반복",
        RawKey::TurboOffHover => "연타 꺼짐: 트리거 누름과 뗌을 따름",
        RawKey::HidActivationTitle => "장치 활성화",
        RawKey::HidActivationPressPrompt => "장치의 버튼 하나를 누르고 계세요.",
        RawKey::HidActivationReleasePrompt => "이제 버튼을 놓으세요.",
        RawKey::HidActivationWarningTitle => "주의",
        RawKey::HidActivationWarning1 => "한 번에 하나의 버튼만 누르세요.",
        RawKey::HidActivationWarning2 => "스틱이나 트리거를 움직이지 마세요.",
        RawKey::HidActivationWarning3 => "유휴 상태가 기준으로 기록됩니다.",
        RawKey::HidActivationSuccessTitle => "활성화 완료",
        RawKey::HidActivationSuccessMessage => "장치를 사용할 수 있습니다.",
        RawKey::HidActivationSuccessHint => "이제 설정에서 버튼을 캡처할 수 있습니다.",
        RawKey::HidActivationAutoClose => "이 창은 자동으로 닫힙니다.",
        RawKey::HidActivationFailedTitle => "활성화 실패",
        RawKey::HidActivationError => "장치 상태를 기록할 수 없습니다.",
        RawKey::HidActivationRetry => "다시 시도",
        RawKey::HidActivationCancel => "취소",
        RawKey::MouseMoveDirectionLabel => "마우스 이동 방향",
        RawKey::MouseMoveUp => "↑ 위",
        RawKey::MouseMoveDown => "↓ 아래",
        RawKey::MouseMoveLeft => "← 왼쪽",
        RawKey::MouseMoveRight => "→ 오른쪽",
        RawKey::MouseMoveUpLeft => "↖ 왼쪽 위",
        RawKey::MouseMoveUpRight => "↗ 오른쪽 위",
        RawKey::MouseMoveDownLeft => "↙ 왼쪽 아래",
        RawKey::MouseMoveDownRight => "↘ 오른쪽 아래",
        RawKey::SetMouseDirectionHover => "마우스 이동 방향 설정",
        RawKey::MouseScrollDirectionLabel => "마우스 스크롤 방향",
        RawKey::MouseScrollUp => "⬆ 위로 스크롤",
        RawKey::MouseScrollDown => "⬇ 아래로 스크롤",
        RawKey::MouseMiddleButton => "가운데 버튼",
        RawKey::SetMouseScrollDirectionHover => "마우스 스크롤 방향 설정",
        RawKey::SpeedLabel => "속도:",
        RawKey::RawInputCaptureModeLabel => "Raw Input 캡처 모드:",
        RawKey::XInputCaptureModeLabel => "XInput 캡처 모드:",
        RawKey::CaptureModeMostSustained => "가장 오래 유지",
        RawKey::CaptureModeAdaptiveIntelligent => "적응형",
        RawKey::CaptureModeMaxChangedBits => "변경 비트 최대",
        RawKey::CaptureModeMaxSetBits => "설정 비트 최대",
        RawKey::CaptureModeLastStable => "마지막 안정",
        RawKey::CaptureModeHatSwitchOptimized => "햇 스위치 최적화",
        RawKey::CaptureModeAnalogOptimized => "아날로그 최적화",
        RawKey::CaptureModeDiagonalPriority => "대각선 우선",
        RawKey::AddTargetKeyHover => "대상 키 추가",
        RawKey::AddSequenceKeyHover => "시퀀스에 키 추가",
        RawKey::ClearAllTriggerKeysHover => "모든 트리거 키 지우기",
        RawKey::ClearAllTargetKeysHover => "모든 대상 키 지우기",
        RawKey::DiagonalHintTitle => "대각선 입력",
        RawKey::DiagonalHint => "두 방향을 함께 누르면 대각선이 기록됩니다.",
        RawKey::TriggerModeLabel => "트리거 모드:",
        RawKey::TriggerModeSingle => "단일 키",
        RawKey::TriggerModeSequence => "시퀀스",
        RawKey::TriggerModeSingleBadge => "키",
        RawKey::TriggerModeSequenceBadge => "시퀀스",
        RawKey::SequenceTriggerExplanation => "시간 창 안에 순서대로 입력하면 발동합니다.",
        RawKey::SequenceWindowLabel => "시간 창 (ms):",
        RawKey::SequenceWindowHint => "시퀀스를 완료하는 최대 시간입니다.",
        RawKey::SequenceCapturing => "시퀀스 녹화 중...",
        RawKey::SequenceCaptureHint => "키를 순서대로 입력한 뒤 완료 키를 누르세요.",
        RawKey::SequenceComplete => "✔ 완료",
        RawKey::SequenceClearBtn => "지우기",
        RawKey::SequenceExampleLabel => "예:",
        RawKey::TargetModeLabel => "대상 모드:",
        RawKey::TargetModeSingle => "단일",
        RawKey::TargetModeMulti => "다중",
        RawKey::TargetModeSequence => "시퀀스",
        RawKey::TargetModeSingleBadge => "단일",
        RawKey::TargetModeMultiBadge => "다중",
        RawKey::TargetModeSequenceBadge => "시퀀스",
        RawKey::TargetModeMultiExplanation => "모든 대상 키를 동시에 누릅니다.",
        RawKey::TargetModeSequenceExplanation => "대상 키를 차례로 누릅니다.",
        RawKey::TargetSequenceOutputHint => "키는 표시된 순서대로 전송됩니다.",
        RawKey::DevicesBtn => "🎮 장치",
        RawKey::DeviceManagerTitle => "장치 관리자",
        RawKey::ConnectedDevicesTitle => "연결된 장치",
        RawKey::RefreshBtn => "🔄 새로 고침",
        RawKey::XInputControllersTitle => "XInput 컨트롤러",
        RawKey::NoControllersConnected => "연결된 컨트롤러 없음",
        RawKey::HidDevicesTitle => "HID 장치",
        RawKey::NoHidDevicesDetected => "감지된 HID 장치 없음",
        RawKey::SlotLabel => "슬롯",
        RawKey::HideBtn => "숨기기",
        RawKey::DeviceSettingsBtn => "⚙ 장치 설정",
        RawKey::VibrationControlTitle => "진동",
        RawKey::LeftMotorLabel => "왼쪽 모터:",
        RawKey::RightMotorLabel => "오른쪽 모터:",
        RawKey::PowerLabel => "세기:",
        RawKey::TestVibrationBtn => "진동 테스트",
        RawKey::StopVibrationBtn => "진동 중지",
        RawKey::DeadzoneSettingsTitle => "데드존",
        RawKey::StickLabel => "스틱:",
        RawKey::TriggerLabelShort => "트리거:",
        RawKey::ThresholdLabel => "임계값:",
        RawKey::PreferredApiLabel => "선호 API:",
        RawKey::ApiAuto => "자동",
        RawKey::ApiXInput => "XInput",
        RawKey::ApiRawInput => "Raw Input",
        RawKey::ReactivateBtn => "재활성화",
        RawKey::AllDevicesFilter => "모든 장치",
        RawKey::GameDevicesOnlyFilter => "게임 장치만",
        RawKey::NoGameDevicesDetected => "감지된 게임 장치 없음",
        RawKey::TrayActivate => "활성화",
        RawKey::TrayPause => "일시 정지",
        RawKey::TrayShowWindow => "창 표시",
        RawKey::TrayAbout => "정보",
        RawKey::TrayExit => "종료",
        RawKey::TrayNotificationLaunched => "Sorahk가 백그라운드에서 실행 중입니다.",
        RawKey::TrayNotificationActivated => "Sorahk가 활성화되었습니다.",
        RawKey::TrayNotificationPaused => "Sorahk가 일시 정지되었습니다.",
        RawKey::SequenceIcon => "🔗",
        RawKey::TargetIcon => "🎯",
        RawKey::ArrowIcon => "→",
        RawKey::DeleteIcon => "🗑",
        RawKey::KeysText => "개 키",
        RawKey::TargetsText => "개 대상",
        RawKey::RulePropsButton => "⚙ 규칙",
        RawKey::RulePropsDialogTitle => "규칙 속성",
        RawKey::RulePropsHint => "표시한 키는 본문 재생 후에도 눌린 채로 유지되고, 추가 키는 그 뒤에 눌립니다.",
        RawKey::RulePropsHoldColumn => "유지",
        RawKey::RulePropsAppendLabel => "추가 키:",
        RawKey::RulePropsAddAppend => "➕ 추가",
        RawKey::RulePropsAppendPlaceholder => "키 이름",
        RawKey::RulePropsSave => "저장",
        RawKey::RulePropsCancel => "취소",
        RawKey::PresetTitle => "프리셋",
        RawKey::PresetSaveBtn => "💾 프리셋 저장",
        RawKey::PresetDeleteBtn => "🗑 삭제",
        RawKey::PresetRenameBtn => "✏ 이름 변경",
        RawKey::PresetNameHint => "프리셋 이름",
        RawKey::NoPreset => "(없음)",
        RawKey::NoteLabel => "메모:",
        RawKey::NoteHint => "이 매핑에 대한 선택 메모",
    }
}

} // verus!
