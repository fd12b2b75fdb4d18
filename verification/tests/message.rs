use iracing_broadcast::BroadcastMessageType;
use iracing_broadcast::CameraState;
use iracing_broadcast::ChatCommandMode;
use iracing_broadcast::PitCommandMode;
use iracing_broadcast::ReplayPositionMode;
use iracing_broadcast::ReplaySearchMode;
use iracing_broadcast::TelemetryCommandMode;
use iracing_broadcast::VideoCaptureMode;

#[test]
fn opcodes_are_pinned() {
    assert_eq!(usize::from(BroadcastMessageType::CameraSwitchPosition), 0);
    assert_eq!(usize::from(BroadcastMessageType::CameraSwitchNumber), 1);
    assert_eq!(usize::from(BroadcastMessageType::CameraSetState), 2);
    assert_eq!(usize::from(BroadcastMessageType::ReplaySetPlaySpeed), 3);
    assert_eq!(usize::from(BroadcastMessageType::ReplaySetPlayPosition), 4);
    assert_eq!(usize::from(BroadcastMessageType::ReplaySearch), 5);
    assert_eq!(usize::from(BroadcastMessageType::ReplaySetState), 6);
    assert_eq!(usize::from(BroadcastMessageType::ReloadTextures), 7);
    assert_eq!(usize::from(BroadcastMessageType::ChatCommand), 8);
    assert_eq!(usize::from(BroadcastMessageType::PitCommand), 9);
    assert_eq!(usize::from(BroadcastMessageType::TelemetryCommand), 10);
    assert_eq!(usize::from(BroadcastMessageType::FFBCommand), 11);
    assert_eq!(usize::from(BroadcastMessageType::ReplaySearchSessionTime), 12);
    assert_eq!(usize::from(BroadcastMessageType::VideoCapture), 13);
}

#[test]
fn replay_position_modes_are_pinned() {
    assert_eq!(u16::from(ReplayPositionMode::Begin), 0);
    assert_eq!(u16::from(ReplayPositionMode::Current), 1);
    assert_eq!(u16::from(ReplayPositionMode::End), 2);
}

#[test]
fn replay_search_modes_are_pinned() {
    assert_eq!(u16::from(ReplaySearchMode::ToStart), 0);
    assert_eq!(u16::from(ReplaySearchMode::ToEnd), 1);
    assert_eq!(u16::from(ReplaySearchMode::PreviousSession), 2);
    assert_eq!(u16::from(ReplaySearchMode::NextSession), 3);
    assert_eq!(u16::from(ReplaySearchMode::PreviousLap), 4);
    assert_eq!(u16::from(ReplaySearchMode::NextLap), 5);
    assert_eq!(u16::from(ReplaySearchMode::PreviousFrame), 6);
    assert_eq!(u16::from(ReplaySearchMode::NextFrame), 7);
    assert_eq!(u16::from(ReplaySearchMode::PreviousIncident), 8);
    assert_eq!(u16::from(ReplaySearchMode::NextIncident), 9);
}

#[test]
fn telemetry_modes_are_pinned() {
    assert_eq!(u16::from(TelemetryCommandMode::Stop), 0);
    assert_eq!(u16::from(TelemetryCommandMode::Start), 1);
    assert_eq!(u16::from(TelemetryCommandMode::Restart), 2);
}

#[test]
fn chat_modes_are_pinned() {
    assert_eq!(u16::from(ChatCommandMode::Macro), 0);
    assert_eq!(u16::from(ChatCommandMode::Begin), 1);
    assert_eq!(u16::from(ChatCommandMode::Reply), 2);
    assert_eq!(u16::from(ChatCommandMode::Cancel), 3);
}

#[test]
fn video_capture_modes_are_pinned() {
    assert_eq!(u16::from(VideoCaptureMode::ScreenShot), 0);
    assert_eq!(u16::from(VideoCaptureMode::StartCapture), 1);
    assert_eq!(u16::from(VideoCaptureMode::EndCapture), 2);
    assert_eq!(u16::from(VideoCaptureMode::ToggleCapture), 3);
    assert_eq!(u16::from(VideoCaptureMode::ShowTimer), 4);
    assert_eq!(u16::from(VideoCaptureMode::HideTimer), 5);
}

#[test]
fn pit_command_encoding() {
    assert_eq!(PitCommandMode::Fuel(65).encode(), (2, 65));
    assert_eq!(PitCommandMode::Clear.encode(), (0, 0));
    assert_eq!(PitCommandMode::RR(26).encode(), (6, 26));
}

#[test]
fn pit_command_encoding_of_every_command() {
    assert_eq!(PitCommandMode::Tearoff.encode(), (1, 0));
    assert_eq!(PitCommandMode::LF(26).encode(), (3, 26));
    assert_eq!(PitCommandMode::RF(27).encode(), (4, 27));
    assert_eq!(PitCommandMode::LR(28).encode(), (5, 28));
    assert_eq!(PitCommandMode::ClearTires.encode(), (7, 0));
    assert_eq!(PitCommandMode::FastRepair.encode(), (8, 0));
    assert_eq!(PitCommandMode::ClearTearoff.encode(), (9, 0));
    assert_eq!(PitCommandMode::ClearFastRepair.encode(), (10, 0));
    assert_eq!(PitCommandMode::ClearFuel.encode(), (11, 0));
}

#[test]
fn pit_command_quantity_is_not_checked() {
    assert_eq!(PitCommandMode::Fuel(0).encode(), (2, 0));
    assert_eq!(PitCommandMode::Fuel(255).encode(), (2, 255));
    assert_eq!(PitCommandMode::RR(255).encode(), (6, 255));
}

#[test]
fn camera_flags_have_their_bits() {
    assert_eq!(CameraState::IS_SESSION_SCREEN, 0x01);
    assert_eq!(CameraState::IS_SCENIC_ACTIVE, 0x02);
    assert_eq!(CameraState::CAM_TOOL_ACTIVE, 0x04);
    assert_eq!(CameraState::UI_HIDDEN, 0x08);
    assert_eq!(CameraState::USE_AUTO_SHOT_SELECTION, 0x10);
    assert_eq!(CameraState::USE_TEMPORARY_EDITS, 0x20);
    assert_eq!(CameraState::USE_KEY_ACCELERATION, 0x40);
    assert_eq!(CameraState::USE_KEY_10X_ACCELERATION, 0x80);
    assert_eq!(CameraState::USE_MOUSE_AIM_MODE, 0x100);
}

#[test]
fn camera_state_from_bits_takes_flags_only() {
    let state = CameraState::from_bits(CameraState::UI_HIDDEN | CameraState::USE_MOUSE_AIM_MODE);
    assert_eq!(state.map(|s| s.bits()), Some(0x108));
    assert_eq!(CameraState::from_bits(0x1ff).map(|s| s.bits()), Some(0x1ff));
    assert_eq!(CameraState::from_bits(0).map(|s| s.bits()), Some(0));
    assert!(CameraState::from_bits(0x200).is_none());
    assert!(CameraState::from_bits(0x1_0000).is_none());
    assert!(CameraState::from_bits(u32::MAX).is_none());
}

#[test]
fn camera_state_from_bits_truncate_drops_other_bits() {
    assert_eq!(CameraState::from_bits_truncate(0x1_0203).bits(), 0x003);
    assert_eq!(CameraState::from_bits_truncate(u32::MAX).bits(), 0x1ff);
    assert_eq!(CameraState::from_bits_truncate(0x40).bits(), 0x40);
}

#[test]
fn camera_state_union_and_contains() {
    let scenic = CameraState::from_bits_truncate(CameraState::IS_SCENIC_ACTIVE);
    let hidden = CameraState::from_bits_truncate(CameraState::UI_HIDDEN);
    let both = scenic | hidden;
    assert_eq!(both.bits(), 0x0a);
    assert_eq!(scenic.union(hidden), both);
    assert!(both.contains(scenic));
    assert!(both.contains(hidden));
    assert!(!scenic.contains(both));
    assert!(both.contains(CameraState::empty()));
    assert!(CameraState::all().contains(both));
}

#[test]
fn camera_state_empty_all_and_default() {
    assert_eq!(CameraState::empty().bits(), 0);
    assert!(CameraState::empty().is_empty());
    assert_eq!(CameraState::all().bits(), 0x1ff);
    assert!(!CameraState::all().is_empty());
    assert_eq!(CameraState::default(), CameraState::empty());
}
