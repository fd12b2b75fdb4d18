//! Error values of the broadcast client.
//!
//! Three things can go wrong: the broadcast channel cannot be registered,
//! the platform has no such channel at all, or Windows refuses a message.
//! Each error says whether trying again can help.

use vstd::prelude::*;
use vstd::string::StringExecFns;

verus! {

/// `windows_core::Error`, the error that a call of the Windows API reports.
/// Nothing is claimed of it: the library never looks inside and only keeps
/// the value as the cause of a [`BroadcastError::WindowsApi`].
#[verifier::external_type_specification]
#[verifier::external_body]
pub struct ExWindowsError(windows_core::Error);

/// What can go wrong between this library and the simulator.
#[derive(Debug)]
#[non_exhaustive]
pub enum BroadcastError {
    /// The broadcast channel could not be registered.
    Connection { reason: String },
    /// The platform cannot deliver broadcast messages at all.
    UnsupportedPlatform { feature: String, required_platform: String },
    /// Windows reported a failure of the named operation.
    WindowsApi { operation: String, source: windows_core::Error },
}

impl BroadcastError {
    /// The suggestions for an error, as texts.
    pub open spec fn suggestion_texts(self) -> Seq<Seq<char>> {
        match self {
            BroadcastError::Connection { .. } => seq![
                "Ensure iRacing is running"@,
                "Check Windows permissions for shared memory access"@,
                "Verify iRacing SDK version compatibility"@,
                "Try restarting iRacing"@,
            ],
            BroadcastError::UnsupportedPlatform { .. } => seq![
                "Use platform-appropriate features"@,
                "Check documentation for platform requirements"@,
            ],
            BroadcastError::WindowsApi { .. } => seq![
                "Check Windows API permissions"@,
                "Verify system resources availability"@,
                "Check Windows version compatibility"@,
            ],
        }
    }

    /// The text that describes an error.
    pub open spec fn message_text(self) -> Seq<char> {
        match self {
            BroadcastError::Connection { reason } => "Failed to connect to iRacing: "@ + reason@,
            BroadcastError::UnsupportedPlatform { feature, required_platform } => feature@
                + " is only available on "@ + required_platform@,
            BroadcastError::WindowsApi { operation, .. } => "Windows API error: "@ + operation@,
        }
    }

    /// True if the same call may succeed when it is made again: every error
    /// but an unsupported platform.
    pub fn is_retryable(&self) -> (r: bool)
        ensures
            r == !(self is UnsupportedPlatform),
    {
        match self {
            BroadcastError::Connection { .. } => true,
            BroadcastError::UnsupportedPlatform { .. } => false,
            BroadcastError::WindowsApi { .. } => true,
        }
    }

    /// What a user can try after this error, most promising first.
    pub fn recovery_suggestions(&self) -> (r: Vec<&'static str>)
        ensures
            r@.len() == self.suggestion_texts().len(),
            forall|i: int| 0 <= i < r@.len() ==> (#[trigger] r@[i])@ == self.suggestion_texts()[i],
    {
        match self {
            BroadcastError::Connection { .. } => vec![
                "Ensure iRacing is running",
                "Check Windows permissions for shared memory access",
                "Verify iRacing SDK version compatibility",
                "Try restarting iRacing",
            ],
            BroadcastError::UnsupportedPlatform { .. } => vec![
                "Use platform-appropriate features",
                "Check documentation for platform requirements",
            ],
            BroadcastError::WindowsApi { .. } => vec![
                "Check Windows API permissions",
                "Verify system resources availability",
                "Check Windows version compatibility",
            ],
        }
    }

    /// The error's description in one line.
    pub fn message(&self) -> (r: String)
        ensures
            r@ == self.message_text(),
    {
        match self {
            BroadcastError::Connection { reason } => {
                String::from_str("Failed to connect to iRacing: ").concat(reason.as_str())
            },
            BroadcastError::UnsupportedPlatform { feature, required_platform } => {
                String::from_str(feature.as_str()).concat(" is only available on ").concat(
                    required_platform.as_str(),
                )
            },
            BroadcastError::WindowsApi { operation, .. } => {
                String::from_str("Windows API error: ").concat(operation.as_str())
            },
        }
    }

    /// Helper constructor for connection errors.
    pub fn connection_failed(reason: &str) -> (r: BroadcastError)
        ensures
            r matches BroadcastError::Connection { reason: text } && text@ == reason@,
    {
        BroadcastError::Connection { reason: String::from_str(reason) }
    }

    /// Helper constructor for Windows API errors.
    pub fn windows_api_error(operation: &str, source: windows_core::Error) -> (r: BroadcastError)
        ensures
            r matches BroadcastError::WindowsApi { operation: text, source: cause } && text@
                == operation@ && cause == source,
    {
        BroadcastError::WindowsApi { operation: String::from_str(operation), source }
    }

    /// Helper constructor for unsupported platform errors.
    pub fn unsupported_platform(feature: &str, required_platform: &str) -> (r: BroadcastError)
        ensures
            r matches BroadcastError::UnsupportedPlatform { feature: what, required_platform: needs }
                && what@ == feature@ && needs@ == required_platform@,
    {
        BroadcastError::UnsupportedPlatform {
            feature: String::from_str(feature),
            required_platform: String::from_str(required_platform),
        }
    }
}

impl From<windows_core::Error> for BroadcastError {
    /// A Windows error of an operation that is not known.
    fn from(err: windows_core::Error) -> (r: BroadcastError)
        ensures
            r matches BroadcastError::WindowsApi { operation: text, source: cause } && text@
                == "Unknown Windows operation"@ && cause == err,
    {
        BroadcastError::windows_api_error("Unknown Windows operation", err)
    }
}

/// The conversion is stated on `from` itself, by the texts of the fields.
impl vstd::std_specs::convert::FromSpecImpl<windows_core::Error> for BroadcastError {
    open spec fn obeys_from_spec() -> bool {
        false
    }

    open spec fn from_spec(err: windows_core::Error) -> BroadcastError {
        arbitrary()
    }
}

} // verus!
