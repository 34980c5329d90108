//! Authentication on Windows, by Windows Hello.

use super::{BiometricStrength, Error, Result};
use vstd::prelude::*;

verus! {

/// How the user may authenticate. There is one way: the system always takes a PIN, and falls back on
/// the password.
#[derive(Clone, Copy, Debug, PartialEq, Eq, Structural)]
pub struct Policy {
}

impl Policy {
    /// Makes no difference here.
    pub fn set_action_id(&mut self, _id: &str) -> (r: Result<()>)
        ensures
            r == Ok::<(), Error>(()),
            *final(self) == *old(self),
    {
        Ok(())
    }
}

/// A policy being put together.
#[derive(Clone, Copy, Debug, PartialEq, Eq, Structural)]
pub struct PolicyBuilder {
    pub biometrics: bool,
    pub password: bool,
}

impl PolicyBuilder {
    pub fn new() -> (r: PolicyBuilder)
        ensures
            r == (PolicyBuilder { biometrics: true, password: true }),
    {
        PolicyBuilder { biometrics: true, password: true }
    }

    /// Sets whether biometrics will do.
    pub fn biometrics(self, biometrics: Option<BiometricStrength>) -> (r: PolicyBuilder)
        ensures
            r == (PolicyBuilder { biometrics: biometrics is Some, ..self }),
    {
        PolicyBuilder { biometrics: biometrics.is_some(), ..self }
    }

    /// Sets whether a password will do.
    pub fn password(self, password: bool) -> (r: PolicyBuilder)
        ensures
            r == (PolicyBuilder { password, ..self }),
    {
        PolicyBuilder { password, ..self }
    }

    /// Makes no difference here.
    pub fn companion(self, _companion: bool) -> (r: PolicyBuilder)
        ensures
            r == self,
    {
        self
    }

    /// Makes no difference here.
    pub fn wrist_detection(self, _wrist_detection: bool) -> (r: PolicyBuilder)
        ensures
            r == self,
    {
        self
    }

    /// Makes no difference here.
    pub fn action_ids(self, _ids: Vec<String>) -> (r: PolicyBuilder)
        ensures
            r == self,
    {
        self
    }

    /// The policy. Neither way can be ruled out.
    pub fn build(self) -> (r: Option<Policy>)
        ensures
            r is Some <==> self.biometrics && self.password,
    {
        if self.biometrics && self.password {
            Some(Policy {  })
        } else {
            None
        }
    }
}

/// How the user is asked.
#[derive(Clone, Copy, Debug, PartialEq, Eq, Structural)]
pub enum AskStep {
    /// By Windows Hello.
    Verify,
    /// By a password prompt.
    Fallback,
}

/// How the user is asked. Windows Hello may only be asked where it is available: it would hang
/// otherwise.
pub fn ask_step(available: Option<bool>) -> (r: AskStep)
    ensures
        r == if available == Some(true) {
            AskStep::Verify
        } else {
            AskStep::Fallback
        },
{
    match available {
        Some(true) => AskStep::Verify,
        _ => AskStep::Fallback,
    }
}

/// How the user is asked, by what came of finding out whether Windows Hello is available: finding
/// out may fail to begin, which is an error, or fail later, which is as good as a no.
pub fn availability_step(checked: std::result::Result<Option<bool>, ()>) -> (r: Result<AskStep>)
    ensures
        r == match checked {
            Ok(available) => Ok::<AskStep, Error>(
                if available == Some(true) {
                    AskStep::Verify
                } else {
                    AskStep::Fallback
                },
            ),
            Err(_) => Err(Error::Unknown),
        },
{
    match checked {
        Ok(available) => Ok(ask_step(available)),
        Err(_) => Err(Error::Unknown),
    }
}

/// What Windows Hello says.
#[derive(Clone, Copy, Debug, PartialEq, Eq, Structural)]
pub enum Verification {
    Verified,
    DeviceNotPresent,
    NotConfiguredForUser,
    DisabledByPolicy,
    DeviceBusy,
    RetriesExhausted,
    Canceled,
    /// Something unheard of.
    Other,
}

/// What Windows Hello's answer means.
pub open spec fn conversion(result: Verification) -> Result<()> {
    match result {
        Verification::Verified => Ok(()),
        Verification::DeviceNotPresent => Err(Error::Unavailable),
        Verification::NotConfiguredForUser => Err(Error::NotConfigured),
        Verification::DisabledByPolicy => Err(Error::DisabledByPolicy),
        Verification::DeviceBusy => Err(Error::Busy),
        Verification::RetriesExhausted => Err(Error::Exhausted),
        Verification::Canceled => Err(Error::UserCanceled),
        Verification::Other => Err(Error::Unknown),
    }
}

/// What Windows Hello's answer means.
pub fn convert(result: Verification) -> (r: Result<()>)
    ensures
        r == conversion(result),
{
    match result {
        Verification::Verified => Ok(()),
        Verification::DeviceNotPresent => Err(Error::Unavailable),
        Verification::NotConfiguredForUser => Err(Error::NotConfigured),
        Verification::DisabledByPolicy => Err(Error::DisabledByPolicy),
        Verification::DeviceBusy => Err(Error::Busy),
        Verification::RetriesExhausted => Err(Error::Exhausted),
        Verification::Canceled => Err(Error::UserCanceled),
        Verification::Other => Err(Error::Unknown),
    }
}

/// What asking Windows Hello came to: its answer, or an error where it could not be asked.
pub fn conclude(asked: std::result::Result<Verification, ()>) -> (r: Result<()>)
    ensures
        r == match asked {
            Ok(result) => conversion(result),
            Err(_) => Err(Error::Unknown),
        },
{
    match asked {
        Ok(result) => convert(result),
        Err(_) => Err(Error::Unknown),
    }
}

/// How long to wait before the window of the prompt is looked for again, in milliseconds.
pub const FOCUS_DELAY_MILLIS: u64 = 500;

/// How often the window of the prompt is looked for.
pub const FOCUS_TRIES: u64 = 3;

/// How bringing the prompt to the front goes on.
#[derive(Clone, Copy, Debug, PartialEq, Eq, Structural)]
pub enum FocusStep {
    /// The window is there: bring it to the front.
    Focus,
    /// Wait, and look again.
    LookAgain,
    /// Leave the prompt where it is. That is no failure: the user can still answer it.
    GiveUp,
}

/// How bringing the prompt to the front goes on, at a try that is counted from one. The prompt's
/// window comes up a little after it is asked for.
pub fn focus_step(current_try: u64, found: bool) -> (r: FocusStep)
    ensures
        r == if current_try > FOCUS_TRIES {
            FocusStep::GiveUp
        } else if found {
            FocusStep::Focus
        } else {
            FocusStep::LookAgain
        },
{
    if current_try > FOCUS_TRIES {
        FocusStep::GiveUp
    } else if found {
        FocusStep::Focus
    } else {
        FocusStep::LookAgain
    }
}

/// Whether the Alt key has to be held down for the system to let the prompt come to the front,
/// given the key's state: the sign bit is set while it is pressed.
pub fn holds_alt(key_state: i16) -> (r: bool)
    ensures
        r == (key_state >= 0),
{
    key_state >= 0
}

} // verus!
