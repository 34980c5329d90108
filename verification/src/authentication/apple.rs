//! Authentication on Apple devices.

use super::{BiometricStrength, Error, Result};
use vstd::prelude::*;

verus! {

/// The Apple systems that authentication differs by.
#[derive(Clone, Copy, Debug, PartialEq, Eq, Structural)]
pub enum AppleSystem {
    WatchOs,
    Ios,
    Other,
}

/// How the user may authenticate.
#[derive(Clone, Copy, Debug, PartialEq, Eq, Structural)]
pub enum Policy {
    /// By any means of the device's owner.
    DeviceOwner,
    /// By biometrics only.
    Biometrics,
    /// By biometrics, or a companion device.
    BiometricsOrCompanion,
    /// By a companion device only.
    Companion,
    /// By any means of the device's owner, once the device is on the wrist.
    DeviceOwnerWithWristDetection,
}

impl Policy {
    /// Makes no difference here.
    pub fn set_action_id(&mut self, _id: &str) -> (r: Result<()>)
        ensures
            r == Ok::<(), Error>(()),
            *final(self) == *old(self),
    {
        Ok(())
    }
}

/// A policy being put together.
#[derive(Clone, Copy, Debug, PartialEq, Eq, Structural)]
pub struct PolicyBuilder {
    pub biometrics: bool,
    pub password: bool,
    pub companion: bool,
    pub wrist_detection: bool,
}

/// The policy that allows just what was asked for, if the system has one.
pub open spec fn policy_for(builder: PolicyBuilder, system: AppleSystem) -> Option<Policy> {
    if system == AppleSystem::WatchOs {
        if !builder.password {
            None
        } else if builder.wrist_detection {
            Some(Policy::DeviceOwnerWithWristDetection)
        } else {
            Some(Policy::DeviceOwner)
        }
    } else if builder.biometrics && builder.password {
        Some(Policy::DeviceOwner)
    } else if builder.biometrics {
        if builder.companion && system != AppleSystem::Ios {
            Some(Policy::BiometricsOrCompanion)
        } else {
            Some(Policy::Biometrics)
        }
    } else if !builder.password && builder.companion && system != AppleSystem::Ios {
        Some(Policy::Companion)
    } else {
        None
    }
}

impl PolicyBuilder {
    pub fn new() -> (r: PolicyBuilder)
        ensures
            r == (PolicyBuilder {
                biometrics: true,
                password: true,
                companion: true,
                wrist_detection: true,
            }),
    {
        PolicyBuilder { biometrics: true, password: true, companion: true, wrist_detection: true }
    }

    /// Sets whether biometrics will do. How strong they are is up to the system.
    pub fn biometrics(self, strength: Option<BiometricStrength>) -> (r: PolicyBuilder)
        ensures
            r == (PolicyBuilder { biometrics: strength is Some, ..self }),
    {
        PolicyBuilder { biometrics: strength.is_some(), ..self }
    }

    /// Sets whether a password will do.
    pub fn password(self, password: bool) -> (r: PolicyBuilder)
        ensures
            r == (PolicyBuilder { password, ..self }),
    {
        PolicyBuilder { password, ..self }
    }

    /// Sets whether a companion device will do.
    pub fn companion(self, companion: bool) -> (r: PolicyBuilder)
        ensures
            r == (PolicyBuilder { companion, ..self }),
    {
        PolicyBuilder { companion, ..self }
    }

    /// Sets whether the device has to be on the wrist.
    pub fn wrist_detection(self, wrist_detection: bool) -> (r: PolicyBuilder)
        ensures
            r == (PolicyBuilder { wrist_detection, ..self }),
    {
        PolicyBuilder { wrist_detection, ..self }
    }

    /// Makes no difference here.
    pub fn action_ids(self, _ids: Vec<String>) -> (r: PolicyBuilder)
        ensures
            r == self,
    {
        self
    }

    /// The policy that allows just what was asked for, if the system has one.
    pub fn build(self, system: AppleSystem) -> (r: Option<Policy>)
        ensures
            r == policy_for(self, system),
    {
        if system == AppleSystem::WatchOs {
            if !self.password {
                None
            } else if self.wrist_detection {
                Some(Policy::DeviceOwnerWithWristDetection)
            } else {
                Some(Policy::DeviceOwner)
            }
        } else if self.biometrics && self.password {
            Some(Policy::DeviceOwner)
        } else if self.biometrics {
            if self.companion && system != AppleSystem::Ios {
                Some(Policy::BiometricsOrCompanion)
            } else {
                Some(Policy::Biometrics)
            }
        } else if !self.password && self.companion && system != AppleSystem::Ios {
            Some(Policy::Companion)
        } else {
            None
        }
    }
}

/// No policy lets the user in with a password where passwords were ruled out.
pub proof fn passwords_are_only_taken_where_allowed(builder: PolicyBuilder, system: AppleSystem)
    ensures
        policy_for(builder, system) == Some(Policy::DeviceOwner) ==> builder.password,
        policy_for(builder, system) == Some(Policy::DeviceOwnerWithWristDetection)
            ==> builder.password && builder.wrist_detection,
{
}

/// No policy for other systems than the watch lets the user in by biometrics or a companion device
/// where those were ruled out.
pub proof fn methods_are_only_taken_where_allowed(builder: PolicyBuilder, system: AppleSystem)
    ensures
        policy_for(builder, system) == Some(Policy::Biometrics) ==> builder.biometrics,
        policy_for(builder, system) == Some(Policy::BiometricsOrCompanion) ==> builder.biometrics
            && builder.companion,
        policy_for(builder, system) == Some(Policy::Companion) ==> builder.companion,
        system == AppleSystem::Ios ==> policy_for(builder, system) != Some(Policy::Companion)
            && policy_for(builder, system) != Some(Policy::BiometricsOrCompanion),
{
}

/// Every method that was allowed and that the system has is taken: none is left out. Away from the
/// watch, biometrics and a password together are whatever the device's owner has.
pub proof fn allowed_methods_are_taken(builder: PolicyBuilder, system: AppleSystem)
    requires
        system != AppleSystem::WatchOs,
    ensures
        builder.biometrics && builder.password ==> policy_for(builder, system) == Some(
            Policy::DeviceOwner,
        ),
        builder.biometrics && !builder.password && builder.companion && system
            == AppleSystem::Other ==> policy_for(builder, system) == Some(
            Policy::BiometricsOrCompanion,
        ),
        builder.biometrics && !builder.password && !(builder.companion && system
            == AppleSystem::Other) ==> policy_for(builder, system) == Some(Policy::Biometrics),
        !builder.biometrics && !builder.password && builder.companion && system
            == AppleSystem::Other ==> policy_for(builder, system) == Some(Policy::Companion),
        !builder.biometrics && (builder.password || !builder.companion || system
            == AppleSystem::Ios) ==> policy_for(builder, system) is None,
{
}

/// The watch has passwords only. Whether it has to be on the wrist is as was asked for.
pub proof fn watches_take_passwords(builder: PolicyBuilder)
    ensures
        policy_for(builder, AppleSystem::WatchOs) is Some <==> builder.password,
        builder.password && builder.wrist_detection ==> policy_for(builder, AppleSystem::WatchOs)
            == Some(Policy::DeviceOwnerWithWristDetection),
        builder.password && !builder.wrist_detection ==> policy_for(builder, AppleSystem::WatchOs)
            == Some(Policy::DeviceOwner),
{
}

/// What a system does not have makes no difference to it: neither biometrics nor companions to the
/// watch, nor the wrist to any other, nor companions to a phone.
pub proof fn missing_methods_make_no_difference(
    builder: PolicyBuilder,
    system: AppleSystem,
    flag: bool,
)
    ensures
        system == AppleSystem::WatchOs ==> policy_for(
            PolicyBuilder { biometrics: flag, ..builder },
            system,
        ) == policy_for(builder, system),
        system != AppleSystem::Other ==> policy_for(
            PolicyBuilder { companion: flag, ..builder },
            system,
        ) == policy_for(builder, system),
        system != AppleSystem::WatchOs ==> policy_for(
            PolicyBuilder { wrist_detection: flag, ..builder },
            system,
        ) == policy_for(builder, system),
{
}

/// Whether a prompt with this reason can be shown: the system rejects an empty one.
pub fn check_reason(reason: &str) -> (r: Result<()>)
    ensures
        r == if reason@.len() > 0 {
            Ok::<(), Error>(())
        } else {
            Err(Error::InvalidText)
        },
{
    if reason.is_empty() {
        Err(Error::InvalidText)
    } else {
        Ok(())
    }
}

/// Why the system did not authenticate the user.
#[derive(Clone, Copy, Debug, PartialEq, Eq, Structural)]
pub enum LaError {
    AppCancel,
    AuthenticationFailed,
    BiometryDisconnected,
    BiometryLockout,
    BiometryNotAvailable,
    BiometryNotEnrolled,
    BiometryNotPaired,
    InvalidContext,
    InvalidDimensions,
    NotInteractive,
    PasscodeNotSet,
    SystemCancel,
    UserCancel,
    UserFallback,
    CompanionNotAvailable,
    /// Something unheard of.
    Other,
}

pub open spec fn la_failure(error: LaError) -> Error {
    match error {
        LaError::AppCancel => Error::AppCanceled,
        LaError::AuthenticationFailed => Error::Authentication,
        LaError::BiometryDisconnected => Error::BiometryDisconnected,
        LaError::BiometryLockout => Error::Exhausted,
        LaError::BiometryNotAvailable => Error::Unavailable,
        LaError::BiometryNotEnrolled => Error::NotEnrolled,
        LaError::BiometryNotPaired => Error::NotPaired,
        LaError::InvalidContext => Error::Unknown,
        LaError::InvalidDimensions => Error::InvalidDimensions,
        LaError::NotInteractive => Error::NotInteractive,
        LaError::PasscodeNotSet => Error::PasscodeNotSet,
        LaError::SystemCancel => Error::SystemCanceled,
        LaError::UserCancel => Error::UserCanceled,
        LaError::UserFallback => Error::UserFallback,
        LaError::CompanionNotAvailable => Error::CompanionNotAvailable,
        LaError::Other => Error::Unknown,
    }
}

pub fn map_la_error(error: LaError) -> (r: Error)
    ensures
        r == la_failure(error),
{
    match error {
        LaError::AppCancel => Error::AppCanceled,
        LaError::AuthenticationFailed => Error::Authentication,
        LaError::BiometryDisconnected => Error::BiometryDisconnected,
        LaError::BiometryLockout => Error::Exhausted,
        LaError::BiometryNotAvailable => Error::Unavailable,
        LaError::BiometryNotEnrolled => Error::NotEnrolled,
        LaError::BiometryNotPaired => Error::NotPaired,
        LaError::InvalidContext => Error::Unknown,
        LaError::InvalidDimensions => Error::InvalidDimensions,
        LaError::NotInteractive => Error::NotInteractive,
        LaError::PasscodeNotSet => Error::PasscodeNotSet,
        LaError::SystemCancel => Error::SystemCanceled,
        LaError::UserCancel => Error::UserCanceled,
        LaError::UserFallback => Error::UserFallback,
        LaError::CompanionNotAvailable => Error::CompanionNotAvailable,
        LaError::Other => Error::Unknown,
    }
}

/// Each cause comes out as the error of its name. A cause that says nothing to the caller is an unknown
/// error, and only such a cause is.
pub proof fn causes_keep_their_names(error: LaError)
    ensures
        la_failure(error) == Error::AppCanceled <==> error == LaError::AppCancel,
        la_failure(error) == Error::Authentication <==> error == LaError::AuthenticationFailed,
        la_failure(error) == Error::BiometryDisconnected <==> error
            == LaError::BiometryDisconnected,
        la_failure(error) == Error::Exhausted <==> error == LaError::BiometryLockout,
        la_failure(error) == Error::Unavailable <==> error == LaError::BiometryNotAvailable,
        la_failure(error) == Error::NotEnrolled <==> error == LaError::BiometryNotEnrolled,
        la_failure(error) == Error::NotPaired <==> error == LaError::BiometryNotPaired,
        la_failure(error) == Error::InvalidDimensions <==> error == LaError::InvalidDimensions,
        la_failure(error) == Error::NotInteractive <==> error == LaError::NotInteractive,
        la_failure(error) == Error::PasscodeNotSet <==> error == LaError::PasscodeNotSet,
        la_failure(error) == Error::SystemCanceled <==> error == LaError::SystemCancel,
        la_failure(error) == Error::UserCanceled <==> error == LaError::UserCancel,
        la_failure(error) == Error::UserFallback <==> error == LaError::UserFallback,
        la_failure(error) == Error::CompanionNotAvailable <==> error
            == LaError::CompanionNotAvailable,
        la_failure(error) == Error::Unknown <==> error == LaError::InvalidContext || error
            == LaError::Other,
{
}

/// What the system's reply means.
pub fn reply(success: bool, error: Option<LaError>) -> (r: Result<()>)
    ensures
        r == if success {
            Ok::<(), Error>(())
        } else {
            match error {
                Some(error) => Err(la_failure(error)),
                None => Err(Error::Unknown),
            }
        },
{
    if success {
        return Ok(());
    }
    match error {
        Some(error) => Err(map_la_error(error)),
        None => Err(Error::Unknown),
    }
}

} // verus!
