//! Authentication on Linux, by polkit.

use super::{BiometricStrength, Error, Result};
use crate::bus;
use crate::bus::{BusError, BusFailure};
use crate::text;
use vstd::prelude::*;

verus! {

/// What the user may be asked to authenticate for. The action that is asked for is one of those
/// allowed.
#[derive(Debug)]
pub struct Policy {
    action_id: String,
    allowed_action_ids: Vec<String>,
}

#[verifier::ext_equal]
pub struct PolicyModel {
    pub action_id: Seq<char>,
    pub allowed: Seq<Seq<char>>,
}

impl View for Policy {
    type V = PolicyModel;

    closed spec fn view(&self) -> PolicyModel {
        PolicyModel { action_id: self.action_id@, allowed: text::texts(self.allowed_action_ids@) }
    }
}

impl PolicyModel {
    /// The action that is asked for is one of those allowed.
    pub open spec fn is_valid(self) -> bool {
        self.allowed.contains(self.action_id)
    }

    /// What asking for another action comes to: only one of those allowed is taken.
    pub open spec fn with_action(self, id: Seq<char>) -> (PolicyModel, Result<()>) {
        if self.allowed.contains(id) {
            (PolicyModel { action_id: id, ..self }, Ok(()))
        } else {
            (self, Err(Error::InvalidActionId))
        }
    }
}

impl Policy {
    pub fn action_id(&self) -> (r: &str)
        ensures
            r@ == self@.action_id,
    {
        self.action_id.as_str()
    }

    /// Whether an action may be asked for.
    pub fn allows(&self, id: &str) -> (r: bool)
        ensures
            r == self@.allowed.contains(id@),
    {
        for i in 0..self.allowed_action_ids.len()
            invariant
                forall|j: int| 0 <= j < i ==> (#[trigger] self@.allowed[j]) != id@,
        {
            if text::same(self.allowed_action_ids[i].as_str(), id) {
                assert(self@.allowed[i as int] == id@);
                return true;
            }
        }
        false
    }

    /// Asks for another of the allowed actions.
    pub fn set_action_id(&mut self, id: &str) -> (r: Result<()>)
        ensures
            (final(self)@, r) == old(self)@.with_action(id@),
    {
        if self.allows(id) {
            self.action_id = id.to_owned();
            Ok(())
        } else {
            Err(Error::InvalidActionId)
        }
    }
}

/// A policy being put together.
#[derive(Debug)]
pub struct PolicyBuilder {
    action_ids: Option<Vec<String>>,
}

impl PolicyBuilder {
    /// The actions, if they were set.
    pub closed spec fn actions(self) -> Option<Seq<Seq<char>>> {
        match self.action_ids {
            Some(ids) => Some(text::texts(ids@)),
            None => None,
        }
    }

    pub fn new() -> (r: PolicyBuilder)
        ensures
            r.actions() is None,
    {
        PolicyBuilder { action_ids: None }
    }

    /// Sets the actions that may be asked for. The first of them is, until another one is chosen.
    pub fn action_ids(self, ids: Vec<String>) -> (r: PolicyBuilder)
        ensures
            r.actions() == Some(text::texts(ids@)),
    {
        PolicyBuilder { action_ids: Some(ids) }
    }

    /// Makes no difference here.
    pub fn biometrics(self, _strength: Option<BiometricStrength>) -> (r: PolicyBuilder)
        ensures
            r.actions() == self.actions(),
    {
        self
    }

    /// Makes no difference here.
    pub fn password(self, _password: bool) -> (r: PolicyBuilder)
        ensures
            r.actions() == self.actions(),
    {
        self
    }

    /// Makes no difference here.
    pub fn companion(self, _companion: bool) -> (r: PolicyBuilder)
        ensures
            r.actions() == self.actions(),
    {
        self
    }

    /// Makes no difference here.
    pub fn wrist_detection(self, _wrist_detection: bool) -> (r: PolicyBuilder)
        ensures
            r.actions() == self.actions(),
    {
        self
    }

    /// The policy. There has to be an action to ask for.
    pub fn build(self) -> (r: Option<Policy>)
        ensures
            r is Some <==> self.actions() is Some && self.actions()->0.len() > 0,
            r matches Some(policy) ==> policy@ == (PolicyModel {
                action_id: self.actions()->0[0],
                allowed: self.actions()->0,
            }) && policy@.is_valid(),
    {
        match self.action_ids {
            Some(ids) => {
                if ids.len() == 0 {
                    return None;
                }
                let action_id = ids[0].clone();
                assert(text::texts(ids@)[0] == action_id@);
                Some(Policy { action_id, allowed_action_ids: ids })
            },
            None => None,
        }
    }
}

/// Whatever actions are asked for, one of those allowed is, and which are allowed never changes.
pub proof fn actions_stay_allowed(policy: PolicyModel, id: Seq<char>)
    requires
        policy.is_valid(),
    ensures
        policy.with_action(id).0.is_valid(),
        policy.with_action(id).0.allowed == policy.allowed,
        policy.with_action(id).1 is Err ==> policy.with_action(id).0 == policy,
{
}

/// What a failure of polkit means.
pub open spec fn polkit_failure(error: BusFailure) -> Error {
    match error {
        BusFailure::Method(name) => if name == "org.freedesktop.PolicyKit1.Error.Cancelled"@ {
            Error::UserCanceled
        } else if name == "org.freedesktop.PolicyKit1.Error.NotSupported"@ || name
            == "org.freedesktop.PolicyKit1.Error.NoAgent"@ {
            Error::Unavailable
        } else {
            Error::Authentication
        },
        BusFailure::Standard(name) => if name == "org.freedesktop.DBus.Error.TimedOut"@ || name
            == "org.freedesktop.DBus.Error.NoReply"@ {
            Error::Unavailable
        } else {
            Error::Authentication
        },
        BusFailure::InputOutput(_) => Error::Unavailable,
        _ => Error::Authentication,
    }
}

/// What a failure of polkit means.
pub fn map_polkit_error(error: &BusError) -> (r: Error)
    ensures
        r == polkit_failure(error@),
{
    match error {
        BusError::Method(name) => {
            if text::same(name.as_str(), "org.freedesktop.PolicyKit1.Error.Cancelled") {
                Error::UserCanceled
            } else if text::same(name.as_str(), "org.freedesktop.PolicyKit1.Error.NotSupported")
                || text::same(name.as_str(), "org.freedesktop.PolicyKit1.Error.NoAgent") {
                Error::Unavailable
            } else {
                Error::Authentication
            }
        },
        BusError::Standard(name) => {
            if text::same(name.as_str(), "org.freedesktop.DBus.Error.TimedOut") || text::same(
                name.as_str(),
                "org.freedesktop.DBus.Error.NoReply",
            ) {
                Error::Unavailable
            } else {
                Error::Authentication
            }
        },
        BusError::InputOutput(_) => Error::Unavailable,
        _ => Error::Authentication,
    }
}

/// What polkit answered.
#[derive(Debug)]
pub struct Authorization {
    pub is_authorized: bool,
    /// What it says about the user having dismissed its prompt.
    pub dismissed: Option<String>,
}

/// What polkit's answer means.
pub open spec fn decision(answer: Authorization) -> Result<()> {
    if answer.is_authorized {
        Ok(())
    } else if answer.dismissed is Some && answer.dismissed->0@.len() > 0 {
        Err(Error::UserCanceled)
    } else {
        Err(Error::Authentication)
    }
}

/// What polkit's answer means.
pub fn decide(answer: &Authorization) -> (r: Result<()>)
    ensures
        r == decision(*answer),
{
    if answer.is_authorized {
        return Ok(());
    }
    match &answer.dismissed {
        Some(details) => if details.as_str().is_empty() {
            Err(Error::Authentication)
        } else {
            Err(Error::UserCanceled)
        },
        None => Err(Error::Authentication),
    }
}

/// What asking polkit came to.
pub fn conclude(asked: std::result::Result<Authorization, BusError>) -> (r: Result<()>)
    ensures
        r == match asked {
            Ok(answer) => decision(answer),
            Err(error) => Err(polkit_failure(error@)),
        },
{
    match asked {
        Ok(answer) => decide(&answer),
        Err(error) => Err(map_polkit_error(&error)),
    }
}

/// What asking polkit came to, as the bus library reports it.
pub fn conclude_call(asked: std::result::Result<Authorization, zbus::Error>) -> (r: Result<()>)
    ensures
        r == match asked {
            Ok(answer) => decision(answer),
            Err(error) => Err(polkit_failure(bus::described(error))),
        },
{
    conclude(bus::outcome(asked))
}

} // verus!
