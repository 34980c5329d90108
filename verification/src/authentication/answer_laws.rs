//! What the systems' answers come to, and what they are asked for.

use super::android;
use super::linux;
use super::linux::{Authorization, PolicyModel};
use super::prompt;
use super::windows;
use super::windows::Verification;
use super::{BiometricStrength, Error};
use crate::bus::BusFailure;
use vstd::prelude::*;
use vstd::utf8::*;

verus! {

/// Strong biometrics are part of the weak ones, and the device's credential is neither. It can be asked
/// for from the tenth version of the system on.
pub proof fn android_is_asked_for_what_is_allowed(policy: android::Policy, sdk_int: i32)
    ensures
        policy.strength == Some(BiometricStrength::Strong) ==> android::biometrics_mask(
            policy.strength,
        ) == 15,
        policy.strength == Some(BiometricStrength::Weak) ==> android::biometrics_mask(
            policy.strength,
        ) == 255,
        policy.strength is None ==> android::biometrics_mask(policy.strength) == 0,
        android::CREDENTIAL == 32768,
        android::AUTHENTICATORS_SDK == 30,
        android::credential_allowed(policy, sdk_int) <==> policy.password && sdk_int >= 29,
{
}

/// Only who was authorized gets in. Who dismissed the question cancelled; anyone else failed.
pub proof fn only_who_is_authorized_gets_in(answer: Authorization)
    ensures
        linux::decision(answer) is Ok <==> answer.is_authorized,
        linux::decision(answer) == Err::<(), Error>(Error::UserCanceled) <==> !answer.is_authorized
            && (answer.dismissed matches Some(details) && details@.len() > 0),
        linux::decision(answer) == Err::<(), Error>(Error::Authentication)
            <==> !answer.is_authorized && (answer.dismissed matches Some(details) ==> details@.len()
            == 0),
{
}

/// A question that was cancelled is told from one that nobody could be asked, and both from one that was
/// answered wrongly.
pub proof fn failures_of_polkit_are_told_apart(error: BusFailure)
    ensures
        linux::polkit_failure(error) == Error::UserCanceled <==> (error matches BusFailure::Method(
            name,
        ) && name == "org.freedesktop.PolicyKit1.Error.Cancelled"@),
        linux::polkit_failure(error) == Error::Unavailable <==> {
            ||| error matches BusFailure::Method(name) && name
                == "org.freedesktop.PolicyKit1.Error.NotSupported"@
            ||| error matches BusFailure::Method(name) && name
                == "org.freedesktop.PolicyKit1.Error.NoAgent"@
            ||| error matches BusFailure::Standard(name) && name
                == "org.freedesktop.DBus.Error.TimedOut"@
            ||| error matches BusFailure::Standard(name) && name
                == "org.freedesktop.DBus.Error.NoReply"@
            ||| error is InputOutput
        },
        linux::polkit_failure(error) == Error::UserCanceled || linux::polkit_failure(error)
            == Error::Unavailable || linux::polkit_failure(error) == Error::Authentication,
{
    reveal_strlit("org.freedesktop.PolicyKit1.Error.Cancelled");
    reveal_strlit("org.freedesktop.PolicyKit1.Error.NotSupported");
    reveal_strlit("org.freedesktop.PolicyKit1.Error.NoAgent");
    assert("org.freedesktop.PolicyKit1.Error.Cancelled"@[33] == 'C');
    assert("org.freedesktop.PolicyKit1.Error.NotSupported"@[33] == 'N');
    assert("org.freedesktop.PolicyKit1.Error.NoAgent"@[33] == 'N');
}

/// Asking for an action that is allowed makes it the one that is asked for. Asking for any other is an
/// error and changes nothing; what is allowed never changes.
pub proof fn only_allowed_actions_are_asked_for(policy: PolicyModel, id: Seq<char>)
    ensures
        ({
            let (after, result) = policy.with_action(id);
            let allowed = exists|i: int|
                0 <= i < policy.allowed.len() && #[trigger] policy.allowed[i] == id;
            &&& after.allowed == policy.allowed
            &&& allowed ==> result is Ok && after.action_id == id
            &&& !allowed ==> result == Err::<(), Error>(Error::InvalidActionId) && after.action_id
                == policy.action_id
        }),
{
}

/// Only who was verified gets in, and each other answer is the error of its name.
pub proof fn only_who_is_verified_gets_in(answer: Verification)
    ensures
        windows::conversion(answer) is Ok <==> answer == Verification::Verified,
        windows::conversion(answer) == Err::<(), Error>(Error::Unavailable) <==> answer
            == Verification::DeviceNotPresent,
        windows::conversion(answer) == Err::<(), Error>(Error::NotConfigured) <==> answer
            == Verification::NotConfiguredForUser,
        windows::conversion(answer) == Err::<(), Error>(Error::DisabledByPolicy) <==> answer
            == Verification::DisabledByPolicy,
        windows::conversion(answer) == Err::<(), Error>(Error::Busy) <==> answer
            == Verification::DeviceBusy,
        windows::conversion(answer) == Err::<(), Error>(Error::Exhausted) <==> answer
            == Verification::RetriesExhausted,
        windows::conversion(answer) == Err::<(), Error>(Error::UserCanceled) <==> answer
            == Verification::Canceled,
        windows::conversion(answer) == Err::<(), Error>(Error::Unknown) <==> answer
            == Verification::Other,
{
}

/// What a part of a text that has to fit in so many bytes is: a beginning of it, and all of it where that
/// fits.
pub proof fn parts_are_as_long_as_they_can_be(text: Seq<char>, max: nat, part: Seq<char>)
    requires
        prompt::truncates_to(text, max, part),
    ensures
        encode_utf8(part).len() <= max,
        part.len() <= text.len(),
        part == text.take(part.len() as int),
        part.len() < text.len() ==> encode_utf8(text.take(part.len() as int + 1)).len() > max,
{
    assert(part =~= text.take(part.len() as int));
}

/// A prompt on Windows has room for a title of 128 bytes and a description of 1024.
pub proof fn prompts_have_these_limits()
    ensures
        prompt::MAX_CAPTION_LENGTH == 128,
        prompt::MAX_MESSAGE_LENGTH == 1024,
{
}

} // verus!
