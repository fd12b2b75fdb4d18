//! Messages for the simulator, their wire form, and the client that
//! prepares them for delivery.
//!
//! A message goes out as a kind and three 16-bit parameters, packed into
//! two words. Delivery itself is the caller's part: the client is made from
//! what registering the broadcast channel returned, and hands back the
//! words to send.

use crate::error::BroadcastError;
use crate::message::BroadcastMessageType;
use crate::message::CameraState;
use crate::message::ChatCommandMode;
use crate::message::PitCommandMode;
use crate::message::ReplayPositionMode;
use crate::message::ReplaySearchMode;
use crate::message::TelemetryCommandMode;
use crate::message::VideoCaptureMode;
use crate::util::pad_car_number;
use crate::util::pad_car_number_spec;
use vstd::prelude::*;
use vstd::string::StringSliceAdditionalSpecFns;

verus! {

/// The name under which the simulator's broadcast channel is registered.
pub const BROADCAST_MESSAGE_NAME: &'static str = "IRSDK_BROADCASTMSG";

/// A value that can be sent to the simulator.
pub trait BroadcastMessageProvider: Sized {
    /// The value on the wire: the message kind and its three parameters.
    /// An implementation defines it together with `to_message`.
    open spec fn wire(self) -> (BroadcastMessageType, u16, u16, u16) {
        arbitrary()
    }

    /// Encodes the value for the wire.
    fn to_message(self) -> (r: (BroadcastMessageType, u16, u16, u16))
        ensures
            r == self.wire(),
    ;
}

/// Messages that can be sent to the iRacing simulation.
///
/// Each variant maps to the documented window message contract in the iRacing
/// SDK. Primitive parameters are passed through as-is.
pub enum BroadcastMessage {
    /// Switch to a specific camera group and camera index for a position.
    CameraSwitchPosition(u8, u8, u8),
    /// Switch to a specific camera group and camera index for a car number.
    CameraSwitchNumber(&'static str, u8, u8),
    /// Apply a new [`CameraState`] bitfield.
    CameraSetState(CameraState),
    /// Set the replay play speed, with an optional slow-motion toggle.
    ReplaySetPlaySpeed(u8, bool),
    /// Jump to a replay position, with the frame number as second parameter.
    ReplaySetPlayPosition(ReplayPositionMode, u16),
    /// Perform a replay search according to the provided mode.
    ReplaySearch(ReplaySearchMode),
    /// Toggle the replay state on or off.
    ReplaySetState,
    /// Reload all textures.
    ReloadAllTextures,
    /// Reload textures for a specific car index.
    ReloadTextures(u8),
    /// Send a chat command.
    ChatCommand(ChatCommandMode),
    /// Send a chat macro by number.
    ChatCommandMacro(u8),
    /// Issue a pit command.
    PitCommand(PitCommandMode),
    /// Control telemetry recording.
    TelemetryCommand(TelemetryCommandMode),
    /// Send a force-feedback command. The magnitude is not transmitted.
    FFBCommand(u16),
    /// Search a replay to a session number and a session time in
    /// milliseconds.
    ReplaySearchSessionTime(u8, u16),
    /// Control video capture.
    VideoCapture(VideoCaptureMode),
}

impl BroadcastMessageProvider for BroadcastMessage {
    open spec fn wire(self) -> (BroadcastMessageType, u16, u16, u16) {
        match self {
            BroadcastMessage::CameraSwitchPosition(position, group, camera) => (
                BroadcastMessageType::CameraSwitchPosition,
                position as u16,
                group as u16,
                camera as u16,
            ),
            BroadcastMessage::CameraSwitchNumber(car_number, group, camera) => (
                BroadcastMessageType::CameraSwitchNumber,
                pad_car_number_spec(car_number.spec_bytes()),
                group as u16,
                camera as u16,
            ),
            BroadcastMessage::CameraSetState(camera_state) => (
                BroadcastMessageType::CameraSetState,
                camera_state@ as u16,
                0,
                0,
            ),
            BroadcastMessage::ReplaySetPlaySpeed(speed, slow_motion) => (
                BroadcastMessageType::ReplaySetPlaySpeed,
                speed as u16,
                if slow_motion {
                    1
                } else {
                    0
                },
                0,
            ),
            BroadcastMessage::ReplaySetPlayPosition(mode, frame_number) => (
                BroadcastMessageType::ReplaySetPlayPosition,
                mode.ordinal(),
                frame_number,
                0,
            ),
            BroadcastMessage::ReplaySearch(mode) => (
                BroadcastMessageType::ReplaySearch,
                mode.ordinal(),
                0,
                0,
            ),
            BroadcastMessage::ReplaySetState => (BroadcastMessageType::ReplaySetState, 0, 0, 0),
            BroadcastMessage::ReloadAllTextures => (BroadcastMessageType::ReloadTextures, 0, 0, 0),
            BroadcastMessage::ReloadTextures(car_index) => (
                BroadcastMessageType::ReloadTextures,
                car_index as u16,
                0,
                0,
            ),
            BroadcastMessage::ChatCommand(mode) => (
                BroadcastMessageType::ChatCommand,
                mode.ordinal(),
                0,
                0,
            ),
            BroadcastMessage::ChatCommandMacro(macro_number) => (
                BroadcastMessageType::ChatCommand,
                ChatCommandMode::Macro.ordinal(),
                macro_number as u16,
                0,
            ),
            BroadcastMessage::PitCommand(pit_command_mode) => (
                BroadcastMessageType::PitCommand,
                pit_command_mode.code(),
                pit_command_mode.quantity(),
                0,
            ),
            BroadcastMessage::TelemetryCommand(mode) => (
                BroadcastMessageType::TelemetryCommand,
                mode.ordinal(),
                0,
                0,
            ),
            BroadcastMessage::FFBCommand(_) => (BroadcastMessageType::FFBCommand, 0, 0, 0),
            BroadcastMessage::ReplaySearchSessionTime(session_number, session_time_ms) => (
                BroadcastMessageType::ReplaySearchSessionTime,
                session_number as u16,
                session_time_ms,
                0,
            ),
            BroadcastMessage::VideoCapture(mode) => (
                BroadcastMessageType::VideoCapture,
                mode.ordinal(),
                0,
                0,
            ),
        }
    }

    /// Encodes the message. A camera state goes out whole: no flag is lost
    /// to the 16-bit field.
    fn to_message(self) -> (r: (BroadcastMessageType, u16, u16, u16))
        ensures
            self matches BroadcastMessage::CameraSetState(camera_state) ==> r.1 == camera_state@,
    {
        match self {
            BroadcastMessage::CameraSwitchPosition(position, group, camera) => (
                BroadcastMessageType::CameraSwitchPosition,
                position as u16,
                group as u16,
                camera as u16,
            ),
            BroadcastMessage::CameraSwitchNumber(car_number, group, camera) => (
                BroadcastMessageType::CameraSwitchNumber,
                pad_car_number(car_number),
                group as u16,
                camera as u16,
            ),
            BroadcastMessage::CameraSetState(camera_state) => {
                let bits: u32 = camera_state.bits();
                (BroadcastMessageType::CameraSetState, bits as u16, 0, 0)
            },
            BroadcastMessage::ReplaySetPlaySpeed(speed, slow_motion) => {
                let slow: u16 = if slow_motion {
                    1
                } else {
                    0
                };
                (BroadcastMessageType::ReplaySetPlaySpeed, speed as u16, slow, 0)
            },
            BroadcastMessage::ReplaySetPlayPosition(mode, frame_number) => (
                BroadcastMessageType::ReplaySetPlayPosition,
                u16::from(mode),
                frame_number,
                0,
            ),
            BroadcastMessage::ReplaySearch(mode) => (
                BroadcastMessageType::ReplaySearch,
                u16::from(mode),
                0,
                0,
            ),
            BroadcastMessage::ReplaySetState => (BroadcastMessageType::ReplaySetState, 0, 0, 0),
            BroadcastMessage::ReloadAllTextures => (BroadcastMessageType::ReloadTextures, 0, 0, 0),
            BroadcastMessage::ReloadTextures(car_index) => (
                BroadcastMessageType::ReloadTextures,
                car_index as u16,
                0,
                0,
            ),
            BroadcastMessage::ChatCommand(mode) => (
                BroadcastMessageType::ChatCommand,
                u16::from(mode),
                0,
                0,
            ),
            BroadcastMessage::ChatCommandMacro(macro_number) => (
                BroadcastMessageType::ChatCommand,
                u16::from(ChatCommandMode::Macro),
                macro_number as u16,
                0,
            ),
            BroadcastMessage::PitCommand(pit_command_mode) => {
                let (var1, var2) = pit_command_mode.encode();
                (BroadcastMessageType::PitCommand, var1, var2, 0)
            },
            BroadcastMessage::TelemetryCommand(mode) => (
                BroadcastMessageType::TelemetryCommand,
                u16::from(mode),
                0,
                0,
            ),
            BroadcastMessage::FFBCommand(_value) => (BroadcastMessageType::FFBCommand, 0, 0, 0),
            BroadcastMessage::ReplaySearchSessionTime(session_number, session_time_ms) => (
                BroadcastMessageType::ReplaySearchSessionTime,
                session_number as u16,
                session_time_ms,
                0,
            ),
            BroadcastMessage::VideoCapture(mode) => (
                BroadcastMessageType::VideoCapture,
                u16::from(mode),
                0,
                0,
            ),
        }
    }
}

/// The chat macro shortcut is a chat command in macro mode that carries the
/// macro's number: same kind, same first parameter, the number as second.
pub proof fn lemma_chat_macro_shortcut(macro_number: u8)
    ensures
        BroadcastMessage::ChatCommandMacro(macro_number).wire() == (
            BroadcastMessage::ChatCommand(ChatCommandMode::Macro).wire().0,
            BroadcastMessage::ChatCommand(ChatCommandMode::Macro).wire().1,
            macro_number as u16,
            0u16,
        ),
{
}

/// A word of two 16-bit halves: `low` in bits 0 to 15, `high` in bits 16 to
/// 31.
pub open spec fn pack_halves(low: u16, high: u16) -> u32 {
    (low as u32) | ((high as u32) << 16)
}

/// The two words that carry a message: the kind's opcode and the first
/// parameter in the low word, the second and third parameter in the high
/// word.
pub open spec fn packed_words(message: (BroadcastMessageType, u16, u16, u16)) -> (u32, u32) {
    (pack_halves(message.0.opcode() as u16, message.1), pack_halves(message.2, message.3))
}

/// Packs two 16-bit halves into one word.
fn pack(low: u16, high: u16) -> (r: u32)
    ensures
        r == pack_halves(low, high),
{
    (low as u32) | ((high as u32) << 16)
}

/// Packs an encoded message into the low and the high word that go to the
/// simulator.
pub fn pack_message(message: (BroadcastMessageType, u16, u16, u16)) -> (r: (u32, u32))
    ensures
        r == packed_words(message),
{
    let opcode: usize = usize::from(message.0);
    (pack(opcode as u16, message.1), pack(message.2, message.3))
}

/// Packing loses nothing: each half can be read back from the word, and the
/// word is the low half plus 65536 times the high half.
pub proof fn lemma_pack_halves_exact(low: u16, high: u16)
    ensures
        pack_halves(low, high) & 0xffff == low,
        pack_halves(low, high) >> 16 == high,
        pack_halves(low, high) == low + 0x10000 * high,
{
    let word = pack_halves(low, high);
    assert(word & 0xffff == low as u32 && word >> 16 == high as u32 && word == (low as u32) + 0x10000
        * (high as u32)) by (bit_vector)
        requires
            word == (low as u32) | ((high as u32) << 16),
    ;
}

/// What registering the broadcast channel with the environment gave.
#[derive(Clone, Copy, Debug, PartialEq, Eq, Structural)]
pub enum Registration {
    /// The platform has no broadcast channel.
    Unsupported,
    /// The platform answered with this identifier; zero reports a failure.
    Registered(u32),
}

/// One message, ready for delivery to every listener of the channel.
#[derive(Clone, Copy, Debug, PartialEq, Eq, Structural)]
pub struct Dispatch {
    /// The identifier of the registered channel.
    pub message_id: u32,
    /// The low word: opcode and first parameter.
    pub word_low: usize,
    /// The high word: second and third parameter.
    pub word_high: usize,
}

/// The delivery that carries an encoded message on a channel.
pub open spec fn dispatch_to(channel: u32, encoded: (BroadcastMessageType, u16, u16, u16)) -> Dispatch {
    Dispatch {
        message_id: channel,
        word_low: packed_words(encoded).0 as usize,
        word_high: packed_words(encoded).1 as usize,
    }
}

/// Handle for sending broadcast messages to a running iRacing simulator.
///
/// A client exists only for a channel that was registered: its identifier
/// is never zero.
#[derive(Debug, Copy, Clone)]
pub struct Client {
    message_id: u32,
}

impl Client {
    #[verifier::type_invariant]
    closed spec fn registered(self) -> bool {
        self.message_id != 0
    }

    /// The identifier of the channel that the client sends on.
    pub closed spec fn channel(self) -> u32 {
        self.message_id
    }

    /// Creates a sender handle from the outcome of registering the channel
    /// named [`BROADCAST_MESSAGE_NAME`].
    ///
    /// On a platform without the channel this fails as unsupported; where
    /// the registration failed, as a connection error. Otherwise the client
    /// sends on the identifier that was registered.
    pub fn new(registration: Registration) -> (r: Result<Client, BroadcastError>)
        ensures
            match registration {
                Registration::Unsupported => r matches Err(
                    BroadcastError::UnsupportedPlatform { feature, required_platform },
                ) && feature@ == "Broadcast Client"@ && required_platform@ == "Windows"@,
                Registration::Registered(id) => if id == 0 {
                    r matches Err(BroadcastError::Connection { reason }) && reason@
                        == "Failed to register broadcast window message 'IRSDK_BROADCASTMSG'"@
                } else {
                    r matches Ok(client) && client.channel() == id
                },
            },
    {
        match registration {
            Registration::Unsupported => Err(
                BroadcastError::unsupported_platform("Broadcast Client", "Windows"),
            ),
            Registration::Registered(id) => {
                if id == 0 {
                    Err(
                        BroadcastError::connection_failed(
                            "Failed to register broadcast window message 'IRSDK_BROADCASTMSG'",
                        ),
                    )
                } else {
                    Ok(Client { message_id: id })
                }
            },
        }
    }

    /// The identifier of the channel that the client sends on.
    pub fn message_id(&self) -> (r: u32)
        ensures
            r == self.channel(),
            r != 0,
    {
        proof {
            use_type_invariant(self);
        }
        self.message_id
    }

    /// Addresses an encoded message to the client's channel and packs it
    /// into the two words that are delivered.
    pub fn dispatch(&self, encoded: (BroadcastMessageType, u16, u16, u16)) -> (r: Dispatch)
        ensures
            r == dispatch_to(self.channel(), encoded),
            r.word_low == packed_words(encoded).0,
            r.word_high == packed_words(encoded).1,
            r.message_id != 0,
    {
        let words = pack_message(encoded);
        Dispatch {
            message_id: self.message_id(),
            word_low: words.0 as usize,
            word_high: words.1 as usize,
        }
    }

    /// Prepares a broadcast message for the iRacing simulator: encodes it,
    /// packs it, and addresses it to the client's channel. Delivering the
    /// result to every listener sends the message.
    pub fn send_message<M: BroadcastMessageProvider>(&self, message: M) -> (r: Dispatch)
        ensures
            r == dispatch_to(self.channel(), message.wire()),
            r.word_low == packed_words(message.wire()).0,
            r.word_high == packed_words(message.wire()).1,
            r.message_id != 0,
    {
        self.dispatch(message.to_message())
    }

    /// The result of a send, from what the delivery reported: a failure of
    /// the Windows call `SendNotifyMessageW` becomes an error of this
    /// library, with the cause kept.
    pub fn delivered(outcome: Result<(), windows_core::Error>) -> (r: Result<(), BroadcastError>)
        ensures
            match outcome {
                Ok(_) => r is Ok,
                Err(cause) => r matches Err(BroadcastError::WindowsApi { operation, source })
                    && operation@ == "SendNotifyMessageW"@ && source == cause,
            },
    {
        match outcome {
            Ok(_) => Ok(()),
            Err(cause) => Err(BroadcastError::windows_api_error("SendNotifyMessageW", cause)),
        }
    }
}

} // verus!
