//! iRacing broadcast message services.
//!
//! A typed encoder for the broadcast protocol that remote-controls a running
//! simulator: every [`BroadcastMessage`] has one wire form, a message kind
//! and three 16-bit parameters, which a [`Client`] packs into the two words
//! that are delivered.

pub mod client;
pub mod error;
pub mod message;
pub mod util;

pub use client::BroadcastMessage;
pub use client::BroadcastMessageProvider;
pub use client::Client;
pub use client::Dispatch;
pub use client::Registration;
pub use error::BroadcastError;
pub use message::BroadcastMessageType;
pub use message::CameraState;
pub use message::ChatCommandMode;
pub use message::PitCommandMode;
pub use message::ReplayPositionMode;
pub use message::ReplaySearchMode;
pub use message::TelemetryCommandMode;
pub use message::VideoCaptureMode;
