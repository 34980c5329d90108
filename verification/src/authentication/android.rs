//! Authentication on Android, by the biometric prompt.

use super::prompt::AndroidText;
use super::{BiometricStrength, Error, Result};
use vstd::prelude::*;

verus! {

/// The mask of strong biometrics.
pub const STRONG: i32 = 0xf;

/// The mask of biometrics of any strength.
pub const WEAK: i32 = 0xff;

/// The mask of the device's PIN, pattern or password.
pub const CREDENTIAL: i32 = 0x8000;

/// The first version that can fall back on the device's credential.
pub const CREDENTIAL_SDK: i32 = 29;

/// The first version that takes a mask of what is allowed.
pub const AUTHENTICATORS_SDK: i32 = 30;

/// How the user may authenticate: at least one way.
#[derive(Clone, Copy, Debug, PartialEq, Eq, Structural)]
pub struct Policy {
    pub strength: Option<BiometricStrength>,
    pub password: bool,
}

impl Policy {
    /// Makes no difference here.
    pub fn set_action_id(&mut self, _id: &str) -> (r: Result<()>)
        ensures
            r == Ok::<(), Error>(()),
            *final(self) == *old(self),
    {
        Ok(())
    }
}

/// A policy being put together.
#[derive(Clone, Copy, Debug, PartialEq, Eq, Structural)]
pub struct PolicyBuilder {
    pub biometrics: Option<BiometricStrength>,
    pub password: bool,
}

impl PolicyBuilder {
    pub fn new() -> (r: PolicyBuilder)
        ensures
            r == (PolicyBuilder { biometrics: Some(BiometricStrength::Strong), password: true }),
    {
        PolicyBuilder { biometrics: Some(BiometricStrength::Strong), password: true }
    }

    /// Sets which biometrics will do, if any.
    pub fn biometrics(self, biometrics: Option<BiometricStrength>) -> (r: PolicyBuilder)
        ensures
            r == (PolicyBuilder { biometrics, ..self }),
    {
        PolicyBuilder { biometrics, ..self }
    }

    /// Sets whether the device's credential will do.
    pub fn password(self, password: bool) -> (r: PolicyBuilder)
        ensures
            r == (PolicyBuilder { password, ..self }),
    {
        PolicyBuilder { password, ..self }
    }

    /// Makes no difference here.
    pub fn companion(self, _companion: bool) -> (r: PolicyBuilder)
        ensures
            r == self,
    {
        self
    }

    /// Makes no difference here.
    pub fn wrist_detection(self, _wrist_detection: bool) -> (r: PolicyBuilder)
        ensures
            r == self,
    {
        self
    }

    /// Makes no difference here.
    pub fn action_ids(self, _ids: Vec<String>) -> (r: PolicyBuilder)
        ensures
            r == self,
    {
        self
    }

    /// The policy. At least one way has to be left.
    pub fn build(self) -> (r: Option<Policy>)
        ensures
            r == if self.biometrics is None && !self.password {
                None
            } else {
                Some(Policy { strength: self.biometrics, password: self.password })
            },
    {
        if self.biometrics.is_none() && !self.password {
            None
        } else {
            Some(Policy { strength: self.biometrics, password: self.password })
        }
    }
}

/// The prompt that the system shows.
#[derive(Clone, Copy, Debug)]
pub struct Prompt<'a, 'b, 'c> {
    pub text: AndroidText<'a, 'b, 'c>,
    /// What is allowed, where the system takes a mask of it.
    pub allowed_authenticators: Option<i32>,
    /// The device's credential is allowed, where the system has to be told apart from the mask.
    pub allow_device_credential: bool,
    /// The prompt has to have a button that cancels it, because nothing else leads out of it.
    pub negative_button: bool,
}

pub open spec fn biometrics_mask(strength: Option<BiometricStrength>) -> i32 {
    match strength {
        Some(BiometricStrength::Strong) => STRONG,
        Some(BiometricStrength::Weak) => WEAK,
        None => 0,
    }
}

/// The device's credential can be used.
pub open spec fn credential_allowed(policy: Policy, sdk_int: i32) -> bool {
    policy.password && sdk_int >= CREDENTIAL_SDK
}

/// Works out the prompt for a policy on a version of the system.
///
/// The system rejects an empty title. Old versions know no way in but biometrics.
pub fn prompt<'a, 'b, 'c>(policy: &Policy, text: AndroidText<'a, 'b, 'c>, sdk_int: i32) -> (r:
    Result<Prompt<'a, 'b, 'c>>)
    ensures
        match r {
            Ok(prompt) => {
                let credential = credential_allowed(*policy, sdk_int);
                &&& text.title@.len() > 0
                &&& policy.strength is Some || credential
                &&& prompt.text == text
                &&& prompt.allowed_authenticators == if sdk_int >= AUTHENTICATORS_SDK {
                    Some(
                        biometrics_mask(policy.strength) | (if credential {
                            CREDENTIAL
                        } else {
                            0
                        }),
                    )
                } else {
                    None
                }
                &&& prompt.allow_device_credential == (credential && sdk_int < AUTHENTICATORS_SDK)
                &&& prompt.negative_button == !credential
            },
            Err(error) => {
                ||| text.title@.len() == 0 && error == Error::InvalidText
                ||| text.title@.len() > 0 && policy.strength is None && !credential_allowed(
                    *policy,
                    sdk_int,
                ) && error == Error::Unavailable
            },
        },
{
    if text.title.is_empty() {
        return Err(Error::InvalidText);
    }
    let mask: i32 = match policy.strength {
        Some(BiometricStrength::Strong) => STRONG,
        Some(BiometricStrength::Weak) => WEAK,
        None => 0,
    };
    let credential = policy.password && sdk_int >= CREDENTIAL_SDK;
    if policy.strength.is_none() && !credential {
        return Err(Error::Unavailable);
    }
    let credential_mask: i32 = if credential {
        CREDENTIAL
    } else {
        0
    };
    Ok(
        Prompt {
            text,
            allowed_authenticators: if sdk_int >= AUTHENTICATORS_SDK {
                Some(mask | credential_mask)
            } else {
                None
            },
            allow_device_credential: credential && sdk_int < AUTHENTICATORS_SDK,
            negative_button: !credential,
        },
    )
}

} // verus!
