//! Proof that the user is who they should be, from the system's own prompts.

pub mod android;
pub mod answer_laws;
pub mod apple;
pub mod linux;
pub mod prompt;
pub mod windows;

use vstd::prelude::*;

verus! {

/// What can go wrong during authentication.
#[derive(Clone, Copy, Debug, PartialEq, Eq, Structural)]
pub enum Error {
    /// A call into Java failed.
    Java,
    /// The user failed to provide valid credentials.
    Authentication,
    /// There were too many failed attempts.
    Exhausted,
    /// The requested authentication method is unavailable.
    Unavailable,
    /// The user canceled authentication.
    UserCanceled,
    /// The action is not in the policy's list.
    InvalidActionId,
    /// The prompt's text is one that the platform rejects.
    InvalidText,
    /// The application canceled authentication.
    AppCanceled,
    /// The system canceled authentication.
    SystemCanceled,
    /// The paired biometric accessory is not connected.
    BiometryDisconnected,
    /// No biometric accessory is paired.
    NotPaired,
    /// The user has no enrolled biometric identities.
    NotEnrolled,
    /// The prompt may not be shown.
    NotInteractive,
    /// Authentication with a companion device failed.
    CompanionNotAvailable,
    /// The input has invalid dimensions.
    InvalidDimensions,
    /// No passcode is set on the device.
    PasscodeNotSet,
    /// The user chose the fallback, which the policy does not have.
    UserFallback,
    /// A security update is required.
    UpdateRequired,
    /// Authentication timed out.
    Timeout,
    /// The biometric device is busy.
    Busy,
    /// Group policy has disabled the biometric device.
    DisabledByPolicy,
    /// No biometric device is configured for this user.
    NotConfigured,
    /// Anything else.
    Unknown,
}

pub type Result<T> = std::result::Result<T, Error>;

/// What each error says. Where a system has more to say, its words come after these.
pub open spec fn error_text(error: Error) -> Seq<char> {
    match error {
        Error::Java => "Java error during authentication: "@,
        Error::Authentication => "the user failed to provide valid credentials"@,
        Error::Exhausted => "authentication failed due to too many failed attempts"@,
        Error::Unavailable => "the requested authentication method was unavailable"@,
        Error::UserCanceled => "the user canceled authentication"@,
        Error::InvalidActionId => "the provided action ID is not in the policy's allowed list"@,
        Error::InvalidText => "the provided prompt text is invalid for the current platform"@,
        Error::AppCanceled => "the app canceled authentication"@,
        Error::SystemCanceled => "the system canceled authentication"@,
        Error::BiometryDisconnected => "the paired biometric accessory required for authentication is not connected"@,
        Error::NotPaired => "no biometric accessory required for authentication is paired"@,
        Error::NotEnrolled => "the user has no enrolled biometric identities"@,
        Error::NotInteractive => "displaying the required authentication UI is forbidden"@,
        Error::CompanionNotAvailable => "authentication with a companion device (e.g., Apple Watch) failed"@,
        Error::InvalidDimensions => "the authentication input has invalid dimensions"@,
        Error::PasscodeNotSet => "no passcode is set on the device"@,
        Error::UserFallback => "the user chose the fallback authentication method, but the policy does not support fallback"@,
        Error::UpdateRequired => "a security update is required before authenticating"@,
        Error::Timeout => "authentication timed out"@,
        Error::Busy => "the biometric verifier device is busy"@,
        Error::DisabledByPolicy => "group policy has disabled the biometric verifier device"@,
        Error::NotConfigured => "no biometric verifier device is configured for this user"@,
        Error::Unknown => "an unknown authentication error occurred"@,
    }
}

impl Error {
    /// What the error says. Where a system has more to say, its words come after these.
    pub fn message(self) -> (r: &'static str)
        ensures
            r@ == error_text(self),
    {
        match self {
            Error::Java => "Java error during authentication: ",
            Error::Authentication => "the user failed to provide valid credentials",
            Error::Exhausted => "authentication failed due to too many failed attempts",
            Error::Unavailable => "the requested authentication method was unavailable",
            Error::UserCanceled => "the user canceled authentication",
            Error::InvalidActionId => "the provided action ID is not in the policy's allowed list",
            Error::InvalidText => "the provided prompt text is invalid for the current platform",
            Error::AppCanceled => "the app canceled authentication",
            Error::SystemCanceled => "the system canceled authentication",
            Error::BiometryDisconnected => "the paired biometric accessory required for authentication is not connected",
            Error::NotPaired => "no biometric accessory required for authentication is paired",
            Error::NotEnrolled => "the user has no enrolled biometric identities",
            Error::NotInteractive => "displaying the required authentication UI is forbidden",
            Error::CompanionNotAvailable => "authentication with a companion device (e.g., Apple Watch) failed",
            Error::InvalidDimensions => "the authentication input has invalid dimensions",
            Error::PasscodeNotSet => "no passcode is set on the device",
            Error::UserFallback => "the user chose the fallback authentication method, but the policy does not support fallback",
            Error::UpdateRequired => "a security update is required before authenticating",
            Error::Timeout => "authentication timed out",
            Error::Busy => "the biometric verifier device is busy",
            Error::DisabledByPolicy => "group policy has disabled the biometric verifier device",
            Error::NotConfigured => "no biometric verifier device is configured for this user",
            Error::Unknown => "an unknown authentication error occurred",
        }
    }
}

/// How hard a biometric method is to fool.
#[derive(Clone, Copy, Debug, PartialEq, Eq, Structural)]
pub enum BiometricStrength {
    Strong,
    Weak,
}

} // verus!
