//! The vocabulary of the broadcast protocol: message kinds, camera flags and
//! the command modes, each with the integer that stands for it on the wire.

use vstd::prelude::*;

verus! {

/// Identifiers for broadcast messages recognized by the iRacing simulator.
///
/// The wire value of a variant is pinned by [`BroadcastMessageType::opcode`].
#[derive(Clone, Copy, Debug, PartialEq, Eq, Structural)]
pub enum BroadcastMessageType {
    /// Switch to a camera by position index.
    CameraSwitchPosition,
    /// Switch to a camera by car number.
    CameraSwitchNumber,
    /// Update the camera state bitfield.
    CameraSetState,
    /// Change replay playback speed.
    ReplaySetPlaySpeed,
    /// Move to a specific replay position.
    ReplaySetPlayPosition,
    /// Perform a replay search.
    ReplaySearch,
    /// Toggle the replay state.
    ReplaySetState,
    /// Reload one or more textures.
    ReloadTextures,
    /// Issue a chat command.
    ChatCommand,
    /// Issue a pit command.
    PitCommand,
    /// Control telemetry capture.
    TelemetryCommand,
    /// Send a force-feedback command.
    FFBCommand,
    /// Search to a session-relative time.
    ReplaySearchSessionTime,
    /// Control screenshot or capture recording.
    VideoCapture,
}

impl BroadcastMessageType {
    /// The integer that identifies the message kind on the wire.
    pub open spec fn opcode(self) -> usize {
        match self {
            BroadcastMessageType::CameraSwitchPosition => 0,
            BroadcastMessageType::CameraSwitchNumber => 1,
            BroadcastMessageType::CameraSetState => 2,
            BroadcastMessageType::ReplaySetPlaySpeed => 3,
            BroadcastMessageType::ReplaySetPlayPosition => 4,
            BroadcastMessageType::ReplaySearch => 5,
            BroadcastMessageType::ReplaySetState => 6,
            BroadcastMessageType::ReloadTextures => 7,
            BroadcastMessageType::ChatCommand => 8,
            BroadcastMessageType::PitCommand => 9,
            BroadcastMessageType::TelemetryCommand => 10,
            BroadcastMessageType::FFBCommand => 11,
            BroadcastMessageType::ReplaySearchSessionTime => 12,
            BroadcastMessageType::VideoCapture => 13,
        }
    }
}

impl From<BroadcastMessageType> for usize {
    fn from(value: BroadcastMessageType) -> (r: usize) {
        match value {
            BroadcastMessageType::CameraSwitchPosition => 0,
            BroadcastMessageType::CameraSwitchNumber => 1,
            BroadcastMessageType::CameraSetState => 2,
            BroadcastMessageType::ReplaySetPlaySpeed => 3,
            BroadcastMessageType::ReplaySetPlayPosition => 4,
            BroadcastMessageType::ReplaySearch => 5,
            BroadcastMessageType::ReplaySetState => 6,
            BroadcastMessageType::ReloadTextures => 7,
            BroadcastMessageType::ChatCommand => 8,
            BroadcastMessageType::PitCommand => 9,
            BroadcastMessageType::TelemetryCommand => 10,
            BroadcastMessageType::FFBCommand => 11,
            BroadcastMessageType::ReplaySearchSessionTime => 12,
            BroadcastMessageType::VideoCapture => 13,
        }
    }
}

impl vstd::std_specs::convert::FromSpecImpl<BroadcastMessageType> for usize {
    open spec fn obeys_from_spec() -> bool {
        true
    }

    open spec fn from_spec(value: BroadcastMessageType) -> usize {
        value.opcode()
    }
}

/// Every opcode lies between 0 and 13, and no two message kinds share one.
pub proof fn lemma_opcodes_distinct(a: BroadcastMessageType, b: BroadcastMessageType)
    ensures
        a.opcode() <= 13,
        a.opcode() == b.opcode() ==> a == b,
{
}

/// The flags of the camera state that are set in `a` or in `b`.
pub open spec fn flag_union(a: u32, b: u32) -> u32 {
    a | b
}

/// Every flag set in `part` is set in `whole`.
pub open spec fn flag_subset(part: u32, whole: u32) -> bool {
    whole & part == part
}

/// The bits that carry a camera flag: bits 0 to 8.
pub const CAMERA_STATE_ALL_BITS: u32 = 0x1ff;

/// A bit mask is at most [`CAMERA_STATE_ALL_BITS`] exactly if it holds no bit
/// but flags, and such a mask fits in 16 bits.
pub proof fn lemma_flags_only(bits: u32)
    ensures
        bits <= CAMERA_STATE_ALL_BITS <==> bits & !CAMERA_STATE_ALL_BITS == 0,
        bits <= CAMERA_STATE_ALL_BITS ==> bits as u16 == bits,
{
    assert(bits <= 0x1ff <==> bits & !0x1ffu32 == 0) by (bit_vector);
}

/// A union holds the flags of both parts and no others.
pub proof fn lemma_flag_union(a: u32, b: u32)
    ensures
        flag_subset(a, flag_union(a, b)),
        flag_subset(b, flag_union(a, b)),
        forall|c: u32| flag_subset(a, c) && flag_subset(b, c) ==> flag_subset(flag_union(a, b), c),
{
    assert((a | b) & a == a) by (bit_vector);
    assert((a | b) & b == b) by (bit_vector);
    assert forall|c: u32| flag_subset(a, c) && flag_subset(b, c) implies flag_subset(
        flag_union(a, b),
        c,
    ) by {
        assert(c & a == a && c & b == b ==> c & (a | b) == (a | b)) by (bit_vector);
    }
}

/// Bitfield of current camera state.
///
/// A value holds any combination of the nine flags and never a bit beyond
/// them, so it always fits the 16-bit field that it is sent in.
#[derive(Clone, Copy, Debug, PartialEq, Eq, Hash)]
pub struct CameraState {
    bits: u32,
}

impl View for CameraState {
    type V = u32;

    /// The flags as a bit mask.
    closed spec fn view(&self) -> u32 {
        self.bits
    }
}

impl CameraState {
    /// The session screen is shown.
    pub const IS_SESSION_SCREEN: u32 = 0x01;

    /// The scenic camera is active.
    pub const IS_SCENIC_ACTIVE: u32 = 0x02;

    /// The camera tool is active.
    pub const CAM_TOOL_ACTIVE: u32 = 0x04;

    /// The user interface is hidden.
    pub const UI_HIDDEN: u32 = 0x08;

    /// Shots are selected automatically.
    pub const USE_AUTO_SHOT_SELECTION: u32 = 0x10;

    /// Temporary camera edits are in use.
    pub const USE_TEMPORARY_EDITS: u32 = 0x20;

    /// Key acceleration is in use.
    pub const USE_KEY_ACCELERATION: u32 = 0x40;

    /// Tenfold key acceleration is in use.
    pub const USE_KEY_10X_ACCELERATION: u32 = 0x80;

    /// Mouse aim mode is in use.
    pub const USE_MOUSE_AIM_MODE: u32 = 0x100;

    #[verifier::type_invariant]
    closed spec fn fits(self) -> bool {
        self.bits <= CAMERA_STATE_ALL_BITS
    }

    /// The state with no flag set.
    pub fn empty() -> (r: CameraState)
        ensures
            r@ == 0,
    {
        CameraState { bits: 0 }
    }

    /// The state with every flag set.
    pub fn all() -> (r: CameraState)
        ensures
            r@ == CAMERA_STATE_ALL_BITS,
    {
        CameraState { bits: CAMERA_STATE_ALL_BITS }
    }

    /// The flags as a bit mask, which holds no bit beyond the nine flags.
    pub fn bits(&self) -> (r: u32)
        ensures
            r == self@,
            r <= CAMERA_STATE_ALL_BITS,
    {
        proof {
            use_type_invariant(self);
        }
        self.bits
    }

    /// The state that a bit mask stands for, unless the mask holds a bit
    /// that is no flag.
    pub fn from_bits(bits: u32) -> (r: Option<CameraState>)
        ensures
            bits <= CAMERA_STATE_ALL_BITS ==> r.is_some() && r.unwrap()@ == bits,
            bits > CAMERA_STATE_ALL_BITS ==> r.is_none(),
    {
        if bits <= CAMERA_STATE_ALL_BITS {
            Some(CameraState { bits })
        } else {
            None
        }
    }

    /// The state that a bit mask stands for, without the bits that are no
    /// flag.
    pub fn from_bits_truncate(bits: u32) -> (r: CameraState)
        ensures
            r@ == bits & CAMERA_STATE_ALL_BITS,
    {
        let kept: u32 = bits & CAMERA_STATE_ALL_BITS;
        assert(kept <= 0x1ff) by (bit_vector)
            requires
                kept == bits & 0x1ff,
        ;
        CameraState { bits: kept }
    }

    /// True if no flag is set.
    pub fn is_empty(&self) -> (r: bool)
        ensures
            r == (self@ == 0),
    {
        self.bits == 0
    }

    /// True if every flag of `other` is set in this state.
    pub fn contains(&self, other: CameraState) -> (r: bool)
        ensures
            r == flag_subset(other@, self@),
    {
        self.bits & other.bits == other.bits
    }

    /// The state with the flags of both, as a value of contracts.
    pub closed spec fn union_spec(self, other: CameraState) -> CameraState {
        CameraState { bits: self.bits | other.bits }
    }

    /// The state with the flags of both.
    pub fn union(self, other: CameraState) -> (r: CameraState)
        ensures
            r == self.union_spec(other),
            r@ == flag_union(self@, other@),
    {
        proof {
            use_type_invariant(self);
            use_type_invariant(other);
        }
        let a: u32 = self.bits;
        let b: u32 = other.bits;
        assert(a | b <= 0x1ff) by (bit_vector)
            requires
                a <= 0x1ff,
                b <= 0x1ff,
        ;
        CameraState { bits: a | b }
    }
}

impl Default for CameraState {
    fn default() -> (r: CameraState)
        ensures
            r@ == 0,
    {
        CameraState::empty()
    }
}

impl core::ops::BitOr for CameraState {
    type Output = CameraState;

    fn bitor(self, other: CameraState) -> (r: CameraState)
        ensures
            r@ == flag_union(self@, other@),
    {
        self.union(other)
    }
}

impl vstd::std_specs::ops::BitOrSpecImpl for CameraState {
    open spec fn obeys_bitor_spec() -> bool {
        true
    }

    open spec fn bitor_req(self, other: CameraState) -> bool {
        true
    }

    open spec fn bitor_spec(self, other: CameraState) -> CameraState {
        self.union_spec(other)
    }
}

/// Replay positioning behaviors when jumping within a session recording.
///
/// The wire value of a variant is pinned by [`ReplayPositionMode::ordinal`].
#[derive(Clone, Copy, Debug, PartialEq, Eq, Structural)]
pub enum ReplayPositionMode {
    /// Seek to the start of the session.
    Begin,
    /// Seek relative to the current frame.
    Current,
    /// Seek to the end of the session.
    End,
}

impl ReplayPositionMode {
    /// The value that stands for the variant on the wire.
    pub open spec fn ordinal(self) -> u16 {
        match self {
            ReplayPositionMode::Begin => 0,
            ReplayPositionMode::Current => 1,
            ReplayPositionMode::End => 2,
        }
    }
}

impl From<ReplayPositionMode> for u16 {
    fn from(mode: ReplayPositionMode) -> (r: u16) {
        match mode {
            ReplayPositionMode::Begin => 0,
            ReplayPositionMode::Current => 1,
            ReplayPositionMode::End => 2,
        }
    }
}

impl vstd::std_specs::convert::FromSpecImpl<ReplayPositionMode> for u16 {
    open spec fn obeys_from_spec() -> bool {
        true
    }

    open spec fn from_spec(mode: ReplayPositionMode) -> u16 {
        mode.ordinal()
    }
}

/// High-level search controls for walking replay timelines.
///
/// The wire value of a variant is pinned by [`ReplaySearchMode::ordinal`].
#[derive(Clone, Copy, Debug, PartialEq, Eq, Structural)]
pub enum ReplaySearchMode {
    /// Jump to the beginning of the session.
    ToStart,
    /// Jump to the end of the session.
    ToEnd,
    /// Jump to the start of the previous session block.
    PreviousSession,
    /// Jump to the start of the next session block.
    NextSession,
    /// Jump back one lap.
    PreviousLap,
    /// Jump forward one lap.
    NextLap,
    /// Step one frame backward.
    PreviousFrame,
    /// Step one frame forward.
    NextFrame,
    /// Jump to the previous recorded incident.
    PreviousIncident,
    /// Jump to the next recorded incident.
    NextIncident,
}

impl ReplaySearchMode {
    /// The value that stands for the variant on the wire.
    pub open spec fn ordinal(self) -> u16 {
        match self {
            ReplaySearchMode::ToStart => 0,
            ReplaySearchMode::ToEnd => 1,
            ReplaySearchMode::PreviousSession => 2,
            ReplaySearchMode::NextSession => 3,
            ReplaySearchMode::PreviousLap => 4,
            ReplaySearchMode::NextLap => 5,
            ReplaySearchMode::PreviousFrame => 6,
            ReplaySearchMode::NextFrame => 7,
            ReplaySearchMode::PreviousIncident => 8,
            ReplaySearchMode::NextIncident => 9,
        }
    }
}

impl From<ReplaySearchMode> for u16 {
    fn from(mode: ReplaySearchMode) -> (r: u16) {
        match mode {
            ReplaySearchMode::ToStart => 0,
            ReplaySearchMode::ToEnd => 1,
            ReplaySearchMode::PreviousSession => 2,
            ReplaySearchMode::NextSession => 3,
            ReplaySearchMode::PreviousLap => 4,
            ReplaySearchMode::NextLap => 5,
            ReplaySearchMode::PreviousFrame => 6,
            ReplaySearchMode::NextFrame => 7,
            ReplaySearchMode::PreviousIncident => 8,
            ReplaySearchMode::NextIncident => 9,
        }
    }
}

impl vstd::std_specs::convert::FromSpecImpl<ReplaySearchMode> for u16 {
    open spec fn obeys_from_spec() -> bool {
        true
    }

    open spec fn from_spec(mode: ReplaySearchMode) -> u16 {
        mode.ordinal()
    }
}

/// Control commands for telemetry recording.
///
/// The wire value of a variant is pinned by [`TelemetryCommandMode::ordinal`].
#[derive(Clone, Copy, Debug, PartialEq, Eq, Structural)]
pub enum TelemetryCommandMode {
    /// Stop capturing telemetry data.
    Stop,
    /// Begin capturing telemetry data.
    Start,
    /// Restart telemetry capture from scratch.
    Restart,
}

impl TelemetryCommandMode {
    /// The value that stands for the variant on the wire.
    pub open spec fn ordinal(self) -> u16 {
        match self {
            TelemetryCommandMode::Stop => 0,
            TelemetryCommandMode::Start => 1,
            TelemetryCommandMode::Restart => 2,
        }
    }
}

impl From<TelemetryCommandMode> for u16 {
    fn from(mode: TelemetryCommandMode) -> (r: u16) {
        match mode {
            TelemetryCommandMode::Stop => 0,
            TelemetryCommandMode::Start => 1,
            TelemetryCommandMode::Restart => 2,
        }
    }
}

impl vstd::std_specs::convert::FromSpecImpl<TelemetryCommandMode> for u16 {
    open spec fn obeys_from_spec() -> bool {
        true
    }

    open spec fn from_spec(mode: TelemetryCommandMode) -> u16 {
        mode.ordinal()
    }
}

/// Chat command options exposed by the broadcast protocol.
///
/// The wire value of a variant is pinned by [`ChatCommandMode::ordinal`].
#[derive(Clone, Copy, Debug, PartialEq, Eq, Structural)]
pub enum ChatCommandMode {
    /// Send a numbered chat macro.
    Macro,
    /// Begin a chat session.
    Begin,
    /// Reply to an existing message.
    Reply,
    /// Cancel chat entry.
    Cancel,
}

impl ChatCommandMode {
    /// The value that stands for the variant on the wire.
    pub open spec fn ordinal(self) -> u16 {
        match self {
            ChatCommandMode::Macro => 0,
            ChatCommandMode::Begin => 1,
            ChatCommandMode::Reply => 2,
            ChatCommandMode::Cancel => 3,
        }
    }
}

impl From<ChatCommandMode> for u16 {
    fn from(mode: ChatCommandMode) -> (r: u16) {
        match mode {
            ChatCommandMode::Macro => 0,
            ChatCommandMode::Begin => 1,
            ChatCommandMode::Reply => 2,
            ChatCommandMode::Cancel => 3,
        }
    }
}

impl vstd::std_specs::convert::FromSpecImpl<ChatCommandMode> for u16 {
    open spec fn obeys_from_spec() -> bool {
        true
    }

    open spec fn from_spec(mode: ChatCommandMode) -> u16 {
        mode.ordinal()
    }
}

/// Control video capture and screenshot functionality.
///
/// The wire value of a variant is pinned by [`VideoCaptureMode::ordinal`].
#[derive(Clone, Copy, Debug, PartialEq, Eq, Structural)]
pub enum VideoCaptureMode {
    /// Trigger a single screenshot.
    ScreenShot,
    /// Begin capturing video.
    StartCapture,
    /// End capturing video.
    EndCapture,
    /// Toggle recording state.
    ToggleCapture,
    /// Show the capture timer UI.
    ShowTimer,
    /// Hide the capture timer UI.
    HideTimer,
}

impl VideoCaptureMode {
    /// The value that stands for the variant on the wire.
    pub open spec fn ordinal(self) -> u16 {
        match self {
            VideoCaptureMode::ScreenShot => 0,
            VideoCaptureMode::StartCapture => 1,
            VideoCaptureMode::EndCapture => 2,
            VideoCaptureMode::ToggleCapture => 3,
            VideoCaptureMode::ShowTimer => 4,
            VideoCaptureMode::HideTimer => 5,
        }
    }
}

impl From<VideoCaptureMode> for u16 {
    fn from(mode: VideoCaptureMode) -> (r: u16) {
        match mode {
            VideoCaptureMode::ScreenShot => 0,
            VideoCaptureMode::StartCapture => 1,
            VideoCaptureMode::EndCapture => 2,
            VideoCaptureMode::ToggleCapture => 3,
            VideoCaptureMode::ShowTimer => 4,
            VideoCaptureMode::HideTimer => 5,
        }
    }
}

impl vstd::std_specs::convert::FromSpecImpl<VideoCaptureMode> for u16 {
    open spec fn obeys_from_spec() -> bool {
        true
    }

    open spec fn from_spec(mode: VideoCaptureMode) -> u16 {
        mode.ordinal()
    }
}

/// Commands that adjust pit service behavior for the player's car.
#[derive(Clone, Copy, Debug, PartialEq, Eq, Structural)]
pub enum PitCommandMode {
    /// Clear all pending pit service requests.
    Clear,
    /// Request a tearoff.
    Tearoff,
    /// Set fuel amount in gallons.
    Fuel(u8),
    /// Set left-front tire pressure in PSI.
    LF(u8),
    /// Set right-front tire pressure in PSI.
    RF(u8),
    /// Set left-rear tire pressure in PSI.
    LR(u8),
    /// Set right-rear tire pressure in PSI.
    RR(u8),
    /// Clear all tire change requests.
    ClearTires,
    /// Request a fast repair.
    FastRepair,
    /// Cancel tearoff request.
    ClearTearoff,
    /// Cancel fast repair request.
    ClearFastRepair,
    /// Cancel fuel request.
    ClearFuel,
}

impl PitCommandMode {
    /// The code of the command, 0 to 11.
    pub open spec fn code(self) -> u16 {
        match self {
            PitCommandMode::Clear => 0,
            PitCommandMode::Tearoff => 1,
            PitCommandMode::Fuel(_) => 2,
            PitCommandMode::LF(_) => 3,
            PitCommandMode::RF(_) => 4,
            PitCommandMode::LR(_) => 5,
            PitCommandMode::RR(_) => 6,
            PitCommandMode::ClearTires => 7,
            PitCommandMode::FastRepair => 8,
            PitCommandMode::ClearTearoff => 9,
            PitCommandMode::ClearFastRepair => 10,
            PitCommandMode::ClearFuel => 11,
        }
    }

    /// The quantity that the command carries, as given: gallons of fuel or a
    /// tire pressure in PSI, and 0 for a command without one.
    pub open spec fn quantity(self) -> u16 {
        match self {
            PitCommandMode::Fuel(level) => level as u16,
            PitCommandMode::LF(pressure) => pressure as u16,
            PitCommandMode::RF(pressure) => pressure as u16,
            PitCommandMode::LR(pressure) => pressure as u16,
            PitCommandMode::RR(pressure) => pressure as u16,
            _ => 0,
        }
    }

    /// Encode into (var1, var2) words as expected by the broadcast API.
    pub fn encode(self) -> (r: (u16, u16))
        ensures
            r == (self.code(), self.quantity()),
    {
        match self {
            PitCommandMode::Clear => (0, 0),
            PitCommandMode::Tearoff => (1, 0),
            PitCommandMode::Fuel(level) => (2, level as u16),
            PitCommandMode::LF(pressure) => (3, pressure as u16),
            PitCommandMode::RF(pressure) => (4, pressure as u16),
            PitCommandMode::LR(pressure) => (5, pressure as u16),
            PitCommandMode::RR(pressure) => (6, pressure as u16),
            PitCommandMode::ClearTires => (7, 0),
            PitCommandMode::FastRepair => (8, 0),
            PitCommandMode::ClearTearoff => (9, 0),
            PitCommandMode::ClearFastRepair => (10, 0),
            PitCommandMode::ClearFuel => (11, 0),
        }
    }
}

/// A pit command's code lies between 0 and 11, its quantity fits in eight
/// bits, and code and quantity together tell every command apart.
pub proof fn lemma_pit_encoding_distinct(a: PitCommandMode, b: PitCommandMode)
    ensures
        a.code() <= 11,
        a.quantity() <= 255,
        a.code() == b.code() && a.quantity() == b.quantity() ==> a == b,
{
}

} // verus!
