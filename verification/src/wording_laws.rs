//! What the application can show the user when something fails.

use vstd::prelude::*;

verus! {

/// Each failure of authentication says what it is.
pub proof fn authentication_errors_say(error: crate::authentication::Error)
    ensures
        error == crate::authentication::Error::Java ==> crate::authentication::error_text(error)
            == "Java error during authentication: "@,
        error == crate::authentication::Error::Authentication ==> crate::authentication::error_text(error)
            == "the user failed to provide valid credentials"@,
        error == crate::authentication::Error::Exhausted ==> crate::authentication::error_text(error)
            == "authentication failed due to too many failed attempts"@,
        error == crate::authentication::Error::Unavailable ==> crate::authentication::error_text(error)
            == "the requested authentication method was unavailable"@,
        error == crate::authentication::Error::UserCanceled ==> crate::authentication::error_text(error)
            == "the user canceled authentication"@,
        error == crate::authentication::Error::InvalidActionId ==> crate::authentication::error_text(error)
            == "the provided action ID is not in the policy's allowed list"@,
        error == crate::authentication::Error::InvalidText ==> crate::authentication::error_text(error)
            == "the provided prompt text is invalid for the current platform"@,
        error == crate::authentication::Error::AppCanceled ==> crate::authentication::error_text(error)
            == "the app canceled authentication"@,
        error == crate::authentication::Error::SystemCanceled ==> crate::authentication::error_text(error)
            == "the system canceled authentication"@,
        error == crate::authentication::Error::BiometryDisconnected ==> crate::authentication::error_text(error)
            == "the paired biometric accessory required for authentication is not connected"@,
        error == crate::authentication::Error::NotPaired ==> crate::authentication::error_text(error)
            == "no biometric accessory required for authentication is paired"@,
        error == crate::authentication::Error::NotEnrolled ==> crate::authentication::error_text(error)
            == "the user has no enrolled biometric identities"@,
        error == crate::authentication::Error::NotInteractive ==> crate::authentication::error_text(error)
            == "displaying the required authentication UI is forbidden"@,
        error == crate::authentication::Error::CompanionNotAvailable ==> crate::authentication::error_text(error)
            == "authentication with a companion device (e.g., Apple Watch) failed"@,
        error == crate::authentication::Error::InvalidDimensions ==> crate::authentication::error_text(error)
            == "the authentication input has invalid dimensions"@,
        error == crate::authentication::Error::PasscodeNotSet ==> crate::authentication::error_text(error)
            == "no passcode is set on the device"@,
        error == crate::authentication::Error::UserFallback ==> crate::authentication::error_text(error)
            == "the user chose the fallback authentication method, but the policy does not support fallback"@,
        error == crate::authentication::Error::UpdateRequired ==> crate::authentication::error_text(error)
            == "a security update is required before authenticating"@,
        error == crate::authentication::Error::Timeout ==> crate::authentication::error_text(error)
            == "authentication timed out"@,
        error == crate::authentication::Error::Busy ==> crate::authentication::error_text(error)
            == "the biometric verifier device is busy"@,
        error == crate::authentication::Error::DisabledByPolicy ==> crate::authentication::error_text(error)
            == "group policy has disabled the biometric verifier device"@,
        error == crate::authentication::Error::NotConfigured ==> crate::authentication::error_text(error)
            == "no biometric verifier device is configured for this user"@,
        error == crate::authentication::Error::Unknown ==> crate::authentication::error_text(error)
            == "an unknown authentication error occurred"@,
{
}

/// Each failure of taking a photo says what it is.
pub proof fn camera_errors_say(error: crate::camera::Error)
    ensures
        error == crate::camera::Error::AndroidEnvironment ==> crate::camera::error_text(error)
            == "could not acquire Android environment: "@,
        error == crate::camera::Error::Java ==> crate::camera::error_text(error)
            == "JNI error: "@,
        error == crate::camera::Error::CameraUnavailable ==> crate::camera::error_text(error)
            == "camera hardware is not available"@,
        error == crate::camera::Error::RequestedCameraUnavailable ==> crate::camera::error_text(error)
            == "requested camera is not available"@,
        error == crate::camera::Error::Cancelled ==> crate::camera::error_text(error)
            == "user cancelled the capture"@,
        error == crate::camera::Error::PermissionDenied ==> crate::camera::error_text(error)
            == "camera permission denied"@,
        error == crate::camera::Error::ProcessingFailed ==> crate::camera::error_text(error)
            == "failed to process captured image"@,
        error == crate::camera::Error::NotMainThread ==> crate::camera::error_text(error)
            == "must be called on main thread"@,
        error == crate::camera::Error::Unsupported ==> crate::camera::error_text(error)
            == "platform not supported"@,
        error == crate::camera::Error::Unknown ==> crate::camera::error_text(error)
            == "unknown error"@,
{
}

/// Each failure of a file dialog says what it is.
pub proof fn file_errors_say(error: crate::file_picker::Error)
    ensures
        error == crate::file_picker::Error::AndroidEnvironment ==> crate::file_picker::error_text(error)
            == "couldn't access the Android/Java environment"@,
        error == crate::file_picker::Error::Java ==> crate::file_picker::error_text(error)
            == "Java error: "@,
        error == crate::file_picker::Error::NotMainThread ==> crate::file_picker::error_text(error)
            == "must be called from the main UI thread"@,
        error == crate::file_picker::Error::Io ==> crate::file_picker::error_text(error)
            == "I/O error: "@,
        error == crate::file_picker::Error::InvalidFileName ==> crate::file_picker::error_text(error)
            == "invalid file name"@,
        error == crate::file_picker::Error::AlreadyOpen ==> crate::file_picker::error_text(error)
            == "another file picker is already open"@,
        error == crate::file_picker::Error::Unsupported ==> crate::file_picker::error_text(error)
            == "this platform is unsupported"@,
        error == crate::file_picker::Error::Unknown ==> crate::file_picker::error_text(error)
            == "unknown error"@,
{
}

/// Each failure of a notification says what it is.
pub proof fn notification_errors_say(error: crate::notifications::Error)
    ensures
        error == crate::notifications::Error::AndroidEnvironment ==> crate::notifications::error_text(error)
            == "couldn't access the Android/Java environment"@,
        error == crate::notifications::Error::Java ==> crate::notifications::error_text(error)
            == "Java error: "@,
        error == crate::notifications::Error::Windows ==> crate::notifications::error_text(error)
            == "Windows API error: "@,
        error == crate::notifications::Error::DBus ==> crate::notifications::error_text(error)
            == "D-Bus error: "@,
        error == crate::notifications::Error::Io ==> crate::notifications::error_text(error)
            == "I/O error: "@,
        error == crate::notifications::Error::Empty ==> crate::notifications::error_text(error)
            == "the notification has no title or body"@,
        error == crate::notifications::Error::InvalidNotification ==> crate::notifications::error_text(error)
            == "invalid notification field"@,
        error == crate::notifications::Error::PermissionDenied ==> crate::notifications::error_text(error)
            == "no permission to show notifications"@,
        error == crate::notifications::Error::NoAppBundle ==> crate::notifications::error_text(error)
            == "the app isn't running from an app bundle"@,
        error == crate::notifications::Error::HandlerAlreadySet ==> crate::notifications::error_text(error)
            == "an interaction handler was already set"@,
        error == crate::notifications::Error::NoService ==> crate::notifications::error_text(error)
            == "no notification service is available"@,
        error == crate::notifications::Error::Unsupported ==> crate::notifications::error_text(error)
            == "this platform is unsupported"@,
        error == crate::notifications::Error::Unknown ==> crate::notifications::error_text(error)
            == "unknown error"@,
{
}

} // verus!
