//! Locations from the desktop portal: what each request and each signal does to the connection's
//! state, and what has to be asked of the portal next.
//!
//! A call on the bus is never made here. Where one is needed, the function returns a
//! [`PortalStep`] that says which, and another function takes what came of it.

use super::bus_errors::PortalInitError;
use super::callbacks::{CallbackEvent, CallbackQueue, CallbackSender, QueueState};
use super::fix;
use super::fix::FixField;
use super::one_shot;
use super::one_shot::{OneShot, ONE_SHOT_TIMEOUT};
use super::token;
use super::{Access, Accuracy, Error, LocationData, Result};
use crate::text;
use crate::time::Timestamp;
use vstd::prelude::*;

verus! {

pub const ACCURACY_CITY: u32 = 2;

pub const ACCURACY_EXACT: u32 = 5;

/// The portal's number for an accuracy.
pub open spec fn accuracy_level(accuracy: Accuracy) -> u32 {
    match accuracy {
        Accuracy::Approximate => ACCURACY_CITY,
        Accuracy::Precise => ACCURACY_EXACT,
    }
}

pub fn portal_accuracy(accuracy: Accuracy) -> (r: u32)
    ensures
        r == accuracy_level(accuracy),
{
    match accuracy {
        Accuracy::Approximate => ACCURACY_CITY,
        Accuracy::Precise => ACCURACY_EXACT,
    }
}

/// The error that the portal's response code stands for; zero is success.
pub open spec fn response_error(response: u32) -> Option<Error> {
    if response == 0 {
        None
    } else if response == 1 {
        Some(Error::AuthorizationDenied)
    } else if response == 2 {
        Some(Error::TemporarilyUnavailable)
    } else {
        Some(Error::Unknown)
    }
}

pub fn start_response_error(response: u32) -> (r: Option<Error>)
    ensures
        r == response_error(response),
{
    match response {
        0 => None,
        1 => Some(Error::AuthorizationDenied),
        2 => Some(Error::TemporarilyUnavailable),
        _ => Some(Error::Unknown),
    }
}

pub const PORTAL_DESTINATION: &'static str = "org.freedesktop.portal.Desktop";

pub const LOCATION_INTERFACE: &'static str = "org.freedesktop.portal.Location";

pub const REQUEST_INTERFACE: &'static str = "org.freedesktop.portal.Request";

pub const SESSION_INTERFACE: &'static str = "org.freedesktop.portal.Session";

pub const DBUS_DESTINATION: &'static str = "org.freedesktop.DBus";

/// Whether a portal that answers the probe with this version can give locations.
pub fn check_version(version: u32) -> (r: std::result::Result<(), PortalInitError>)
    ensures
        r == if version >= 1 {
            Ok::<(), PortalInitError>(())
        } else {
            Err(
                PortalInitError {
                    error: Error::PermanentlyUnavailable,
                    fallback_allowed: true,
                },
            )
        },
{
    if version < 1 {
        return Err(PortalInitError::unavailable(Error::PermanentlyUnavailable));
    }
    Ok(())
}

/// What a signal from the bus is about.
#[derive(Clone, Copy, Debug, PartialEq, Eq, Structural)]
pub enum PortalSignal {
    /// For [`PortalState::handle_location`].
    LocationUpdated,
    /// For [`PortalState::handle_start_response`].
    Response,
    /// For [`PortalState::handle_session_closed`].
    SessionClosed,
    /// Nothing that concerns us.
    Ignored,
}

pub open spec fn opt_str(text: Option<&str>) -> Option<Seq<char>> {
    match text {
        Some(text) => Some(text@),
        None => None,
    }
}

/// Only the portal that was probed is listened to, and only while the connection is usable.
pub open spec fn signal_kind(
    usable: bool,
    owner: Seq<char>,
    sender: Option<Seq<char>>,
    interface: Option<Seq<char>>,
    member: Option<Seq<char>>,
) -> PortalSignal {
    if !usable || sender != Some(owner) {
        PortalSignal::Ignored
    } else if interface == Some(LOCATION_INTERFACE@) && member == Some("LocationUpdated"@) {
        PortalSignal::LocationUpdated
    } else if interface == Some(REQUEST_INTERFACE@) && member == Some("Response"@) {
        PortalSignal::Response
    } else if interface == Some(SESSION_INTERFACE@) && member == Some("Closed"@) {
        PortalSignal::SessionClosed
    } else {
        PortalSignal::Ignored
    }
}

/// Whether the bus reports that the portal we are bound to is gone. Anybody can send such a report;
/// only the bus itself is believed.
pub fn portal_owner_lost(
    owner: &str,
    sender: Option<&str>,
    name: &str,
    old_owner: &str,
    new_owner: &str,
) -> (r: bool)
    ensures
        r == (opt_str(sender) == Some(DBUS_DESTINATION@) && name@ == PORTAL_DESTINATION@
            && old_owner@ == owner@ && old_owner@ != new_owner@),
{
    match sender {
        Some(sender) => text::same(sender, DBUS_DESTINATION) && text::same(name, PORTAL_DESTINATION)
            && text::same(old_owner, owner) && !text::same(old_owner, new_owner),
        None => false,
    }
}

#[derive(Clone, Copy, Debug, PartialEq, Eq, Structural)]
pub enum SessionPhase {
    /// The portal has not said yet whether the user agrees.
    Starting,
    Active,
}

/// A session at the portal.
#[derive(Debug)]
pub struct Session {
    pub handle: String,
    /// Where the answer to its start request comes from.
    pub request: String,
    pub accuracy: Accuracy,
    pub phase: SessionPhase,
}

pub struct SessionModel {
    pub handle: Seq<char>,
    pub request: Seq<char>,
    pub accuracy: Accuracy,
    pub phase: SessionPhase,
}

/// What has to be closed at the portal for a session to end.
#[derive(Debug)]
pub struct SessionCleanup {
    pub handle: String,
    pub request: Option<String>,
}

pub struct CleanupModel {
    pub handle: Seq<char>,
    pub request: Option<Seq<char>>,
}

impl View for Session {
    type V = SessionModel;

    open spec fn view(&self) -> SessionModel {
        SessionModel {
            handle: self.handle@,
            request: self.request@,
            accuracy: self.accuracy,
            phase: self.phase,
        }
    }
}

impl View for SessionCleanup {
    type V = CleanupModel;

    open spec fn view(&self) -> CleanupModel {
        CleanupModel { handle: self.handle@, request: text::opt_text(self.request) }
    }
}

pub open spec fn opt_session(session: Option<Session>) -> Option<SessionModel> {
    match session {
        Some(session) => Some(session@),
        None => None,
    }
}

pub open spec fn opt_cleanup(cleanup: Option<SessionCleanup>) -> Option<CleanupModel> {
    match cleanup {
        Some(cleanup) => Some(cleanup@),
        None => None,
    }
}

impl SessionModel {
    /// A session that is still starting has a request to cancel as well.
    pub open spec fn cleanup(self) -> CleanupModel {
        CleanupModel {
            handle: self.handle,
            request: if self.phase == SessionPhase::Starting {
                Some(self.request)
            } else {
                None
            },
        }
    }
}

impl Session {
    pub fn into_cleanup(self) -> (r: SessionCleanup)
        ensures
            r@ == self@.cleanup(),
    {
        match self.phase {
            SessionPhase::Starting => SessionCleanup {
                handle: self.handle,
                request: Some(self.request),
            },
            SessionPhase::Active => SessionCleanup { handle: self.handle, request: None },
        }
    }
}

/// The state of a connection to the portal.
pub struct PortalState {
    pub accuracy: Accuracy,
    pub callback_generation: u64,
    /// The user may be looking at a question of the portal's.
    pub authorization_pending: bool,
    pub continuous: bool,
    pub one_shot: Option<OneShot>,
    pub session: Option<Session>,
    /// The last fix of the session. It is never carried across sessions.
    pub last_location: Option<LocationData>,
    pub available: bool,
    pub dropped: bool,
    pub sender: CallbackSender,
    pub token_prefix: String,
    pub next_token: u64,
}

pub struct PortalModel {
    pub accuracy: Accuracy,
    pub callback_generation: u64,
    pub authorization_pending: bool,
    pub continuous: bool,
    pub one_shot: Option<OneShot>,
    pub session: Option<SessionModel>,
    pub last_location: Option<LocationData>,
    pub available: bool,
    pub dropped: bool,
    pub sender: CallbackSender,
    pub token_prefix: Seq<char>,
    pub next_token: u64,
}

impl View for PortalState {
    type V = PortalModel;

    open spec fn view(&self) -> PortalModel {
        PortalModel {
            accuracy: self.accuracy,
            callback_generation: self.callback_generation,
            authorization_pending: self.authorization_pending,
            continuous: self.continuous,
            one_shot: self.one_shot,
            session: opt_session(self.session),
            last_location: self.last_location,
            available: self.available,
            dropped: self.dropped,
            sender: self.sender,
            token_prefix: self.token_prefix@,
            next_token: self.next_token,
        }
    }
}

/// What an application asked for, while it takes several calls on the bus.
#[derive(Clone, Copy, Debug, PartialEq, Eq, Structural)]
pub enum PortalOperation {
    Authorize,
    UpdateOnce { had_one_shot: bool },
    StartUpdates { was_continuous: bool },
}

/// What to do on the bus next.
#[derive(Debug)]
pub enum PortalStep {
    /// Nothing: the operation is over.
    Finished(Result<()>),
    /// Close the session, then call the function for what came of it.
    CloseSession(SessionCleanup),
    /// Create a session, then call [`PortalState::session_created`].
    CreateSession { token: String, accuracy: u32 },
    /// Close a session that is of no use, then call [`PortalState::session_abandoned`].
    AbandonSession { handle: String, error: Error, strict: bool },
    /// Start the session, then call [`PortalState::session_started`].
    StartSession { handle: String, request: String, token: String },
    /// Close the request and then the session, then call [`PortalState::start_aborted`].
    AbortStart { request: String, handle: String, error: Error },
}

pub enum StepModel {
    Finished(Result<()>),
    CloseSession(CleanupModel),
    CreateSession { token: Seq<char>, accuracy: u32 },
    AbandonSession { handle: Seq<char>, error: Error, strict: bool },
    StartSession { handle: Seq<char>, request: Seq<char>, token: Seq<char> },
    AbortStart { request: Seq<char>, handle: Seq<char>, error: Error },
}

impl View for PortalStep {
    type V = StepModel;

    open spec fn view(&self) -> StepModel {
        match *self {
            PortalStep::Finished(result) => StepModel::Finished(result),
            PortalStep::CloseSession(cleanup) => StepModel::CloseSession(cleanup@),
            PortalStep::CreateSession { token, accuracy } => StepModel::CreateSession {
                token: token@,
                accuracy,
            },
            PortalStep::AbandonSession { handle, error, strict } => StepModel::AbandonSession {
                handle: handle@,
                error,
                strict,
            },
            PortalStep::StartSession { handle, request, token } => StepModel::StartSession {
                handle: handle@,
                request: request@,
                token: token@,
            },
            PortalStep::AbortStart { request, handle, error } => StepModel::AbortStart {
                request: request@,
                handle: handle@,
                error,
            },
        }
    }
}

/// A connection and the callback queue it feeds.
pub struct Link {
    pub portal: PortalModel,
    pub queue: QueueState,
}

/// The number after `n`, starting over after the last one.
pub open spec fn next_generation(n: u64) -> u64 {
    if n == u64::MAX {
        0
    } else {
        (n + 1) as u64
    }
}

impl PortalModel {
    /// Neither lost nor given up.
    pub open spec fn usable(self) -> bool {
        self.available && !self.dropped
    }

    /// There is an active session, with that handle if one is given.
    pub open spec fn session_active(self, handle: Option<Seq<char>>) -> bool {
        &&& self.session matches Some(session)
        &&& session.phase == SessionPhase::Active
        &&& handle matches Some(handle) ==> handle == session.handle
    }

    /// The application waits for something.
    pub open spec fn expectant(self) -> bool {
        self.authorization_pending || self.continuous || self.one_shot is Some
    }

    /// Nothing is asked of the connection any more, and it remembers nothing.
    pub open spec fn cleared(self) -> PortalModel {
        PortalModel {
            callback_generation: next_generation(self.callback_generation),
            session: None,
            authorization_pending: false,
            continuous: false,
            one_shot: None,
            last_location: None,
            ..self
        }
    }

    pub open spec fn without_intents(self) -> PortalModel {
        PortalModel {
            authorization_pending: false,
            continuous: false,
            one_shot: None,
            ..self
        }
    }

    /// What a failed operation leaves behind: the wishes it brought are dropped.
    pub open spec fn after_failure(self, operation: PortalOperation) -> PortalModel {
        match operation {
            PortalOperation::Authorize => self.without_intents(),
            PortalOperation::UpdateOnce { had_one_shot } => if had_one_shot {
                self
            } else {
                PortalModel { one_shot: None, ..self }
            },
            PortalOperation::StartUpdates { was_continuous } => if was_continuous {
                self
            } else {
                PortalModel { continuous: false, ..self }
            },
        }
    }

    /// The fix that can answer a one-shot request right away: a recent one, of a session that the
    /// user agreed to.
    pub open spec fn replay(self, now: Timestamp) -> Option<LocationData> {
        match self.last_location {
            Some(location) => if self.session_active(None) && super::is_recent(
                location.time,
                now,
            ) {
                Some(LocationData { freshness: super::Freshness::Cached, ..location })
            } else {
                None
            },
            None => None,
        }
    }

    /// The session that is no longer needed once `keep` is false, as what has to be closed for it.
    pub open spec fn surplus(self, keep: bool) -> Option<CleanupModel> {
        match self.session {
            Some(session) => if keep {
                None
            } else {
                Some(session.cleanup())
            },
            None => None,
        }
    }

    pub open spec fn keeping_session(self, keep: bool) -> PortalModel {
        PortalModel {
            session: if keep {
                self.session
            } else {
                None
            },
            ..self
        }
    }
}

impl Link {
    pub open spec fn told(self, error: Error) -> Link {
        Link {
            queue: self.queue.enqueued(self.portal.sender.epoch, CallbackEvent::Error(error)),
            ..self
        }
    }

    /// The connection starts afresh; whoever waited is told that there is no location now. Fixes
    /// that are queued count as promised.
    pub open spec fn lost(self) -> Link {
        let generation = next_generation(self.portal.callback_generation);
        let epoch = self.portal.sender.epoch;
        let after = Link {
            portal: self.portal.cleared(),
            queue: self.queue.generation_advanced(epoch, generation),
        };
        if self.portal.expectant() || self.queue.discards_one_shot(epoch, generation) {
            after.told(Error::TemporarilyUnavailable)
        } else {
            after
        }
    }

    /// The connection is given up for good. Only the first time is reported.
    pub open spec fn failed_closed(self) -> Link {
        if self.portal.available {
            Link { portal: PortalModel { available: false, ..self.portal }, ..self }.lost()
        } else {
            self
        }
    }

    /// A one-shot request is answered with the fix at hand, if there is one.
    pub open spec fn replayed(self, now: Timestamp) -> Link {
        match self.portal.replay(now) {
            Some(location) => Link {
                portal: PortalModel {
                    one_shot: match self.portal.one_shot {
                        Some(request) => Some(
                            OneShot {
                                newer_than: location.time,
                                delivered_cached: true,
                                ..request
                            },
                        ),
                        None => None,
                    },
                    ..self.portal
                },
                queue: self.queue.enqueued(
                    self.portal.sender.epoch,
                    CallbackEvent::Location {
                        location,
                        one_shot: true,
                        generation: self.portal.callback_generation,
                    },
                ),
            },
            None => self,
        }
    }

    /// What a successful operation leaves behind.
    pub open spec fn after_success(self, operation: PortalOperation, now: Timestamp) -> Link {
        match operation {
            PortalOperation::UpdateOnce { .. } => self.replayed(now),
            _ => self,
        }
    }

    /// The accuracy becomes `accuracy`. If the portal makes a difference between the old and the
    /// new one, nothing acquired under the old one is delivered or replayed, and a request for a
    /// single fix starts over, be it outstanding or answered with a fix that is dropped now.
    pub open spec fn retuned(self, accuracy: Accuracy, now: u64) -> Link {
        if accuracy_level(self.portal.accuracy) == accuracy_level(accuracy) {
            Link { portal: PortalModel { accuracy, ..self.portal }, ..self }
        } else {
            let generation = next_generation(self.portal.callback_generation);
            let epoch = self.portal.sender.epoch;
            Link {
                portal: PortalModel {
                    accuracy,
                    last_location: None,
                    callback_generation: generation,
                    one_shot: if self.portal.one_shot is Some || self.queue.discards_one_shot(
                        epoch,
                        generation,
                    ) {
                        Some(one_shot::fresh_request(now))
                    } else {
                        None
                    },
                    ..self.portal
                },
                queue: self.queue.generation_advanced(epoch, generation),
            }
        }
    }
}

/// A connection, its queue, and what to do next.
pub struct Outcome {
    pub link: Link,
    pub step: StepModel,
}

impl Link {
    pub open spec fn finished(self, result: Result<()>) -> Outcome {
        Outcome { link: self, step: StepModel::Finished(result) }
    }

    pub open spec fn operation_failed(self, operation: PortalOperation, error: Error) -> Outcome {
        Link { portal: self.portal.after_failure(operation), ..self }.finished(Err(error))
    }

    pub open spec fn operation_succeeded(
        self,
        operation: PortalOperation,
        now: Timestamp,
    ) -> Outcome {
        self.after_success(operation, now).finished(Ok(()))
    }

    /// The operation needs a session: there is one, or it has to be created.
    pub open spec fn session_wanted(self, operation: PortalOperation, now: Timestamp) -> Outcome {
        if !self.portal.usable() {
            self.operation_failed(operation, Error::TemporarilyUnavailable)
        } else if self.portal.session is Some {
            self.operation_succeeded(operation, now)
        } else {
            let fresh = Link { portal: PortalModel { last_location: None, ..self.portal }, ..self };
            if self.portal.next_token == u64::MAX {
                fresh.operation_failed(operation, Error::Unknown)
            } else {
                Outcome {
                    link: Link {
                        portal: PortalModel {
                            next_token: (self.portal.next_token + 1) as u64,
                            ..fresh.portal
                        },
                        ..self
                    },
                    step: StepModel::CreateSession {
                        token: token::token_text(
                            self.portal.token_prefix,
                            "session"@,
                            self.portal.next_token,
                        ),
                        accuracy: accuracy_level(self.portal.accuracy),
                    },
                }
            }
        }
    }
}

/// The connection and the queue as one value.
pub open spec fn link(portal: PortalModel, queue: QueueState) -> Link {
    Link { portal, queue }
}

pub open spec fn outcome(portal: PortalModel, queue: QueueState, step: StepModel) -> Outcome {
    Outcome { link: Link { portal, queue }, step }
}

/// Whether there is an active session, with that handle if one is given.
pub fn portal_session_is_active(state: &PortalState, handle: Option<&str>) -> (r: bool)
    ensures
        r == state@.session_active(opt_str(handle)),
{
    match &state.session {
        Some(session) => session.phase == SessionPhase::Active && match handle {
            Some(handle) => text::same(handle, &session.handle),
            None => true,
        },
        None => false,
    }
}

impl PortalState {
    pub fn new(sender: CallbackSender, token_prefix: String) -> (r: PortalState)
        ensures
            r@ == (PortalModel {
                accuracy: Accuracy::Approximate,
                callback_generation: 0,
                authorization_pending: false,
                continuous: false,
                one_shot: None,
                session: None,
                last_location: None,
                available: true,
                dropped: false,
                sender,
                token_prefix: token_prefix@,
                next_token: 0,
            }),
    {
        PortalState {
            accuracy: Accuracy::Approximate,
            callback_generation: 0,
            authorization_pending: false,
            continuous: false,
            one_shot: None,
            session: None,
            last_location: None,
            available: true,
            dropped: false,
            sender,
            token_prefix,
            next_token: 0,
        }
    }

    pub fn ensure_available(&self) -> (r: Result<()>)
        ensures
            r == if self@.usable() {
                Ok::<(), Error>(())
            } else {
                Err(Error::TemporarilyUnavailable)
            },
    {
        if self.dropped || !self.available {
            Err(Error::TemporarilyUnavailable)
        } else {
            Ok(())
        }
    }

    pub fn is_usable(&self) -> (r: bool)
        ensures
            r == self@.usable(),
    {
        self.ensure_available().is_ok()
    }

    pub fn one_shot_deadline(&self) -> (r: Option<u64>)
        ensures
            r == match self@.one_shot {
                Some(request) => Some(request.deadline),
                None => None,
            },
    {
        match &self.one_shot {
            Some(request) => Some(request.deadline),
            None => None,
        }
    }

    fn clear_intents_after_start_failure(&mut self)
        ensures
            final(self)@ == old(self)@.without_intents(),
    {
        self.authorization_pending = false;
        self.continuous = false;
        self.one_shot = None;
    }

    /// The next token of that kind.
    fn next_portal_token(&mut self, kind: &str) -> (r: Result<String>)
        ensures
            old(self)@.next_token == u64::MAX ==> r == Err::<String, Error>(Error::Unknown)
                && final(self)@ == old(self)@,
            old(self)@.next_token < u64::MAX ==> {
                &&& r matches Ok(made) && made@ == token::token_text(
                    old(self)@.token_prefix,
                    kind@,
                    old(self)@.next_token,
                )
                &&& final(self)@ == (PortalModel {
                    next_token: (old(self)@.next_token + 1) as u64,
                    ..old(self)@
                })
            },
    {
        let sequence: u64 = self.next_token;
        match sequence.checked_add(1) {
            Some(next) => {
                self.next_token = next;
                Ok(token::make_token(&self.token_prefix, kind, sequence))
            },
            None => Err(Error::Unknown),
        }
    }

    /// Takes the session, unless it is to be kept.
    fn release_session(&mut self, keep: bool) -> (r: Option<SessionCleanup>)
        ensures
            opt_cleanup(r) == old(self)@.surplus(keep),
            final(self)@ == old(self)@.keeping_session(keep),
    {
        if keep {
            return None;
        }
        match self.session.take() {
            Some(session) => Some(session.into_cleanup()),
            None => None,
        }
    }

    fn operation_failed(&mut self, operation: PortalOperation, error: Error) -> (step: PortalStep)
        ensures
            final(self)@ == old(self)@.after_failure(operation),
            step@ == StepModel::Finished(Err(error)),
    {
        match operation {
            PortalOperation::Authorize => {
                self.clear_intents_after_start_failure();
            },
            PortalOperation::UpdateOnce { had_one_shot } => {
                if !had_one_shot {
                    self.one_shot = None;
                }
            },
            PortalOperation::StartUpdates { was_continuous } => {
                if !was_continuous {
                    self.continuous = false;
                }
            },
        }
        PortalStep::Finished(Err(error))
    }

    fn operation_succeeded(
        &mut self,
        queue: &mut CallbackQueue,
        operation: PortalOperation,
        now: Timestamp,
    ) -> (step: PortalStep)
        ensures
            outcome(final(self)@, final(queue)@, step@) == link(
                old(self)@,
                old(queue)@,
            ).operation_succeeded(operation, now),
    {
        if let PortalOperation::UpdateOnce { .. } = operation {
            // Only a fix of this same session is replayed: one that is starting has to hear from
            // the user and from the provider first.
            let active = portal_session_is_active(self, None);
            if let Some(location) = self.last_location {
                if active && super::cached_fix_is_recent(location.time, now) {
                    let cached = location.as_cached();
                    if let Some(request) = self.one_shot {
                        self.one_shot = Some(
                            OneShot {
                                newer_than: cached.time,
                                delivered_cached: true,
                                ..request
                            },
                        );
                    }
                    queue.location(self.sender, cached, true, self.callback_generation);
                }
            }
        }
        PortalStep::Finished(Ok(()))
    }

    /// Sees to it that there is a session.
    fn ensure_session(
        &mut self,
        queue: &mut CallbackQueue,
        operation: PortalOperation,
        now: Timestamp,
    ) -> (step: PortalStep)
        ensures
            outcome(final(self)@, final(queue)@, step@) == link(
                old(self)@,
                old(queue)@,
            ).session_wanted(operation, now),
    {
        if let Err(error) = self.ensure_available() {
            return self.operation_failed(operation, error);
        }
        if self.session.is_some() {
            return self.operation_succeeded(queue, operation, now);
        }
        // A later authorization may grant less accuracy or be denied: no fix is carried across a
        // session boundary.
        self.last_location = None;
        match self.next_portal_token("session") {
            Ok(token) => PortalStep::CreateSession {
                token,
                accuracy: portal_accuracy(self.accuracy),
            },
            Err(error) => self.operation_failed(operation, error),
        }
    }

    /// The provider is gone: everything asked of it is dropped, and whoever waited is told.
    pub fn provider_lost(&mut self, queue: &mut CallbackQueue)
        ensures
            link(final(self)@, final(queue)@) == link(old(self)@, old(queue)@).lost(),
    {
        let active = self.authorization_pending || self.continuous || self.one_shot.is_some();
        self.callback_generation = self.callback_generation.wrapping_add(1);
        let discarded_one_shot = queue.advance_generation(self.sender, self.callback_generation);
        self.session = None;
        self.authorization_pending = false;
        self.continuous = false;
        self.one_shot = None;
        self.last_location = None;
        if active || discarded_one_shot {
            queue.error(self.sender, Error::TemporarilyUnavailable);
        }
    }

    /// Gives the connection up. Several threads may notice one loss; only the first reports it.
    pub fn fail_closed(&mut self, queue: &mut CallbackQueue)
        ensures
            link(final(self)@, final(queue)@) == link(old(self)@, old(queue)@).failed_closed(),
    {
        if self.available {
            self.available = false;
            self.provider_lost(queue);
        }
    }

    /// Asks for permission to get locations of that accuracy.
    ///
    /// The step is to close the session of another accuracy (then call
    /// [`PortalState::authorization_session_closed`]), or to create one.
    pub fn request_authorization(
        &mut self,
        queue: &mut CallbackQueue,
        _access: Access,
        accuracy: Accuracy,
        now: u64,
        wall: Timestamp,
    ) -> (step: PortalStep)
        requires
            now + ONE_SHOT_TIMEOUT <= u64::MAX,
        ensures
            ({
                let before = link(old(self)@, old(queue)@);
                let retuned = before.retuned(accuracy, now);
                let pending = Link {
                    portal: PortalModel { authorization_pending: true, ..retuned.portal },
                    ..retuned
                };
                outcome(final(self)@, final(queue)@, step@) == if !old(self)@.usable() {
                    before.finished(Err(Error::TemporarilyUnavailable))
                } else {
                    match old(self)@.session {
                        Some(session) => if accuracy_level(session.accuracy) == accuracy_level(
                            accuracy,
                        ) {
                            if session.phase == SessionPhase::Starting {
                                pending.finished(Ok(()))
                            } else {
                                retuned.finished(Ok(()))
                            }
                        } else {
                            Outcome {
                                link: Link {
                                    portal: PortalModel { session: None, ..retuned.portal },
                                    ..retuned
                                },
                                step: StepModel::CloseSession(session.cleanup()),
                            }
                        },
                        None => pending.session_wanted(PortalOperation::Authorize, wall),
                    }
                }
            }),
    {
        if let Err(error) = self.ensure_available() {
            return PortalStep::Finished(Err(error));
        }
        let accuracy_changed = portal_accuracy(self.accuracy) != portal_accuracy(accuracy);
        self.accuracy = accuracy;
        if accuracy_changed {
            // Never replay a fix obtained under a different privacy/precision request.
            self.last_location = None;
            self.callback_generation = self.callback_generation.wrapping_add(1);
            let discarded_one_shot = queue.advance_generation(
                self.sender,
                self.callback_generation,
            );
            if self.one_shot.is_some() || discarded_one_shot {
                self.one_shot = Some(OneShot::begin(now));
            }
        }
        match self.session.take() {
            Some(session) => {
                if portal_accuracy(session.accuracy) == portal_accuracy(accuracy) {
                    // An active session has passed authorization already. One that is starting
                    // answers this request with its own.
                    if session.phase == SessionPhase::Starting {
                        self.authorization_pending = true;
                    }
                    self.session = Some(session);
                    PortalStep::Finished(Ok(()))
                } else {
                    PortalStep::CloseSession(session.into_cleanup())
                }
            },
            None => {
                self.authorization_pending = true;
                self.ensure_session(queue, PortalOperation::Authorize, wall)
            },
        }
    }

    /// The session of another accuracy was closed, or could not be.
    pub fn authorization_session_closed(
        &mut self,
        queue: &mut CallbackQueue,
        closed: Result<()>,
        wall: Timestamp,
    ) -> (step: PortalStep)
        ensures
            outcome(final(self)@, final(queue)@, step@) == match closed {
                Err(error) => link(old(self)@.without_intents(), old(queue)@).failed_closed().finished(
                    Err(error),
                ),
                Ok(_) => link(
                    PortalModel { authorization_pending: true, ..old(self)@ },
                    old(queue)@,
                ).session_wanted(PortalOperation::Authorize, wall),
            },
    {
        match closed {
            Err(error) => {
                self.clear_intents_after_start_failure();
                self.fail_closed(queue);
                PortalStep::Finished(Err(error))
            },
            Ok(_) => {
                self.authorization_pending = true;
                self.ensure_session(queue, PortalOperation::Authorize, wall)
            },
        }
    }

    /// Asks for one fix. A fix that is at hand answers right away; a newer one may follow.
    pub fn update_once(
        &mut self,
        queue: &mut CallbackQueue,
        now: u64,
        wall: Timestamp,
    ) -> (r: (PortalOperation, PortalStep))
        requires
            now + ONE_SHOT_TIMEOUT <= u64::MAX,
        ensures
            ({
                let before = link(old(self)@, old(queue)@);
                let operation = PortalOperation::UpdateOnce {
                    had_one_shot: old(self)@.one_shot is Some,
                };
                let wanting = PortalModel {
                    one_shot: if old(self)@.one_shot is Some {
                        old(self)@.one_shot
                    } else {
                        Some(one_shot::fresh_request(now))
                    },
                    ..old(self)@
                };
                &&& r.0 == operation
                &&& outcome(final(self)@, final(queue)@, r.1@) == if !old(self)@.usable() {
                    before.finished(Err(Error::TemporarilyUnavailable))
                } else {
                    link(wanting, old(queue)@).session_wanted(operation, wall)
                }
            }),
    {
        let had_one_shot = self.one_shot.is_some();
        let operation = PortalOperation::UpdateOnce { had_one_shot };
        if let Err(error) = self.ensure_available() {
            return (operation, PortalStep::Finished(Err(error)));
        }
        if !had_one_shot {
            self.one_shot = Some(OneShot::begin(now));
        }
        let step = self.ensure_session(queue, operation, wall);
        (operation, step)
    }

    /// Asks for every fix from now on.
    pub fn start_updates(&mut self, queue: &mut CallbackQueue, wall: Timestamp) -> (r: (
        PortalOperation,
        PortalStep,
    ))
        ensures
            ({
                let before = link(old(self)@, old(queue)@);
                let operation = PortalOperation::StartUpdates {
                    was_continuous: old(self)@.continuous,
                };
                &&& r.0 == operation
                &&& outcome(final(self)@, final(queue)@, r.1@) == if !old(self)@.usable() {
                    before.finished(Err(Error::TemporarilyUnavailable))
                } else {
                    link(
                        PortalModel { continuous: true, ..old(self)@ },
                        old(queue)@,
                    ).session_wanted(operation, wall)
                }
            }),
    {
        let operation = PortalOperation::StartUpdates { was_continuous: self.continuous };
        if let Err(error) = self.ensure_available() {
            return (operation, PortalStep::Finished(Err(error)));
        }
        self.continuous = true;
        let step = self.ensure_session(queue, operation, wall);
        (operation, step)
    }

    /// Ends the stream of fixes. A session that nobody else needs is to be closed (then call
    /// [`PortalState::stop_session_closed`]).
    pub fn stop_updates(&mut self, queue: &mut CallbackQueue) -> (step: PortalStep)
        ensures
            ({
                let before = link(old(self)@, old(queue)@);
                let stopped = PortalModel { continuous: false, ..old(self)@ };
                let keep = stopped.expectant();
                outcome(final(self)@, final(queue)@, step@) == if !old(self)@.usable() {
                    before.finished(Err(Error::TemporarilyUnavailable))
                } else {
                    Outcome {
                        link: link(
                            stopped.keeping_session(keep),
                            old(queue)@.continuous_discarded(old(self)@.sender.epoch),
                        ),
                        step: match stopped.surplus(keep) {
                            Some(cleanup) => StepModel::CloseSession(cleanup),
                            None => StepModel::Finished(Ok(())),
                        },
                    }
                }
            }),
    {
        if let Err(error) = self.ensure_available() {
            return PortalStep::Finished(Err(error));
        }
        self.continuous = false;
        let keep = self.one_shot.is_some() || self.authorization_pending;
        let cleanup = self.release_session(keep);
        queue.discard_continuous_locations(self.sender);
        match cleanup {
            Some(cleanup) => PortalStep::CloseSession(cleanup),
            None => PortalStep::Finished(Ok(())),
        }
    }

    /// The session that nobody needed was closed, or could not be.
    pub fn stop_session_closed(&mut self, queue: &mut CallbackQueue, closed: Result<()>) -> (step:
        PortalStep)
        ensures
            outcome(final(self)@, final(queue)@, step@) == match closed {
                Err(error) => link(old(self)@, old(queue)@).failed_closed().finished(Err(error)),
                Ok(_) => link(old(self)@, old(queue)@).finished(Ok(())),
            },
    {
        if let Err(error) = closed {
            self.fail_closed(queue);
            return PortalStep::Finished(Err(error));
        }
        PortalStep::Finished(Ok(()))
    }

    /// The portal created a session, or did not.
    pub fn session_created(
        &mut self,
        operation: PortalOperation,
        created: Result<String>,
        unique_name: Option<&str>,
    ) -> (step: PortalStep)
        ensures
            ({
                let next = PortalModel {
                    next_token: (old(self)@.next_token + 1) as u64,
                    ..old(self)@
                };
                let request_token = token::token_text(
                    old(self)@.token_prefix,
                    "request"@,
                    old(self)@.next_token,
                );
                match created {
                    Err(error) => final(self)@ == old(self)@.after_failure(operation) && step@
                        == StepModel::Finished(Err(error)),
                    Ok(handle) => if handle@ == "/"@ {
                        final(self)@ == old(self)@.after_failure(operation) && step@
                            == StepModel::Finished(Err(Error::Unknown))
                    } else if !old(self)@.usable() {
                        final(self)@ == old(self)@ && step@ == StepModel::AbandonSession {
                            handle: handle@,
                            error: Error::TemporarilyUnavailable,
                            strict: false,
                        }
                    } else if old(self)@.next_token == u64::MAX {
                        final(self)@ == old(self)@.after_failure(operation) && step@
                            == StepModel::Finished(Err(Error::Unknown))
                    } else if unique_name is None || !token::object_path(
                        token::request_path(unique_name->0@, request_token),
                    ) {
                        final(self)@ == next && step@ == StepModel::AbandonSession {
                            handle: handle@,
                            error: if unique_name is None {
                                Error::PermanentlyUnavailable
                            } else {
                                Error::Unknown
                            },
                            strict: true,
                        }
                    } else {
                        let request = token::request_path(unique_name->0@, request_token);
                        &&& final(self)@ == (PortalModel {
                            session: Some(
                                SessionModel {
                                    handle: handle@,
                                    request,
                                    accuracy: old(self)@.accuracy,
                                    phase: SessionPhase::Starting,
                                },
                            ),
                            authorization_pending: true,
                            ..next
                        })
                        &&& step@ == StepModel::StartSession {
                            handle: handle@,
                            request,
                            token: request_token,
                        }
                    },
                }
            }),
    {
        let handle = match created {
            Ok(handle) => handle,
            Err(error) => return self.operation_failed(operation, error),
        };
        if text::same(&handle, "/") {
            return self.operation_failed(operation, Error::Unknown);
        }
        if let Err(error) = self.ensure_available() {
            return PortalStep::AbandonSession { handle, error, strict: false };
        }
        let token = match self.next_portal_token("request") {
            Ok(token) => token,
            Err(error) => return self.operation_failed(operation, error),
        };
        let request = match token::predicted_request_path(unique_name, &token) {
            Ok(request) => request,
            Err(error) => return PortalStep::AbandonSession { handle, error, strict: true },
        };
        self.session = Some(
            Session {
                handle: handle.clone(),
                request: request.clone(),
                accuracy: self.accuracy,
                phase: SessionPhase::Starting,
            },
        );
        // Starting can raise a dialog even for a bare one-shot request. While it is pending, the
        // one-shot timeout must not close the request out from under the user.
        self.authorization_pending = true;
        PortalStep::StartSession { handle, request, token }
    }

    /// The session that was of no use was closed, or could not be.
    pub fn session_abandoned(
        &mut self,
        queue: &mut CallbackQueue,
        operation: PortalOperation,
        error: Error,
        strict: bool,
        closed: bool,
    ) -> (step: PortalStep)
        ensures
            outcome(final(self)@, final(queue)@, step@) == (if strict && !closed {
                link(old(self)@, old(queue)@).failed_closed()
            } else {
                link(old(self)@, old(queue)@)
            }).operation_failed(operation, error),
    {
        if strict && !closed {
            self.fail_closed(queue);
        }
        self.operation_failed(operation, error)
    }

    /// The portal took the request to start the session, or did not.
    pub fn session_started(
        &mut self,
        queue: &mut CallbackQueue,
        operation: PortalOperation,
        handle: String,
        request: String,
        started: Result<String>,
        wall: Timestamp,
    ) -> (step: PortalStep)
        ensures
            ({
                let before = link(old(self)@, old(queue)@);
                let ours = old(self)@.session matches Some(session) && session.handle == handle@;
                outcome(final(self)@, final(queue)@, step@) == match started {
                    Ok(actual) => if !old(self)@.usable() || !ours {
                        before.operation_failed(operation, Error::TemporarilyUnavailable)
                    } else {
                        let session = old(self)@.session->0;
                        // The portal may answer at another path than the one predicted.
                        link(
                            PortalModel {
                                session: Some(
                                    SessionModel {
                                        request: if session.phase == SessionPhase::Starting {
                                            actual@
                                        } else {
                                            session.request
                                        },
                                        ..session
                                    },
                                ),
                                ..old(self)@
                            },
                            old(queue)@,
                        ).operation_succeeded(operation, wall)
                    },
                    Err(error) => Outcome {
                        link: link(
                            PortalModel {
                                authorization_pending: false,
                                session: if ours {
                                    None
                                } else {
                                    old(self)@.session
                                },
                                ..old(self)@
                            },
                            old(queue)@,
                        ),
                        step: StepModel::AbortStart {
                            request: request@,
                            handle: handle@,
                            error,
                        },
                    },
                }
            }),
    {
        let ours = match &self.session {
            Some(session) => text::same(&session.handle, &handle),
            None => false,
        };
        match started {
            Ok(actual) => {
                if let Err(error) = self.ensure_available() {
                    return self.operation_failed(operation, error);
                }
                if !ours {
                    return self.operation_failed(operation, Error::TemporarilyUnavailable);
                }
                if let Some(session) = self.session.take() {
                    self.session = Some(
                        if session.phase == SessionPhase::Starting {
                            Session { request: actual, ..session }
                        } else {
                            session
                        },
                    );
                }
                self.operation_succeeded(queue, operation, wall)
            },
            Err(error) => {
                // No response will ever come, and nothing waits on the user.
                self.authorization_pending = false;
                if ours {
                    self.session = None;
                }
                PortalStep::AbortStart { request, handle, error }
            },
        }
    }

    /// The request and the session of a failed start were closed, or could not be.
    pub fn start_aborted(
        &mut self,
        queue: &mut CallbackQueue,
        operation: PortalOperation,
        error: Error,
        closed: bool,
    ) -> (step: PortalStep)
        ensures
            outcome(final(self)@, final(queue)@, step@) == (if closed {
                link(old(self)@, old(queue)@)
            } else {
                link(old(self)@, old(queue)@).failed_closed()
            }).operation_failed(operation, error),
    {
        if !closed {
            self.fail_closed(queue);
        }
        self.operation_failed(operation, error)
    }

    /// Gives up on a request for a single fix whose time is over. Whoever got a cached fix is not
    /// told. A session that nobody else needs is to be closed (then call
    /// [`PortalState::surplus_session_closed`]).
    pub fn expire_one_shot(&mut self, queue: &mut CallbackQueue, now: u64) -> (r: Option<
        SessionCleanup,
    >)
        ensures
            (link(final(self)@, final(queue)@), opt_cleanup(r)) == link(
                old(self)@,
                old(queue)@,
            ).expired(now),
    {
        if !self.is_usable() {
            return None;
        }
        let request = match self.one_shot {
            Some(request) => request,
            None => return None,
        };
        if request.deadline > now {
            return None;
        }
        self.one_shot = None;
        let keep = self.continuous || self.authorization_pending;
        let cleanup = self.release_session(keep);
        if !request.delivered_cached {
            queue.error(self.sender, Error::TemporarilyUnavailable);
        }
        cleanup
    }

    /// A session that nobody needed was closed, or could not be.
    pub fn surplus_session_closed(&mut self, queue: &mut CallbackQueue, closed: bool)
        ensures
            link(final(self)@, final(queue)@) == if closed {
                link(old(self)@, old(queue)@)
            } else {
                link(old(self)@, old(queue)@).failed_closed()
            },
    {
        if !closed {
            self.fail_closed(queue);
        }
    }

    /// The portal's answer to a start request.
    pub fn handle_start_response(
        &mut self,
        queue: &mut CallbackQueue,
        request: &str,
        response: u32,
    ) -> (r: Option<SessionCleanup>)
        ensures
            (link(final(self)@, final(queue)@), opt_cleanup(r)) == link(
                old(self)@,
                old(queue)@,
            ).answered(request@, response),
    {
        let session = match self.session.take() {
            Some(session) => session,
            None => return None,
        };
        if !text::same(&session.request, request) {
            self.session = Some(session);
            return None;
        }
        match start_response_error(response) {
            None => {
                self.session = Some(Session { phase: SessionPhase::Active, ..session });
                self.authorization_pending = false;
                let keep = self.continuous || self.one_shot.is_some();
                self.release_session(keep)
            },
            Some(error) => {
                self.callback_generation = self.callback_generation.wrapping_add(1);
                queue.advance_generation(self.sender, self.callback_generation);
                self.clear_intents_after_start_failure();
                self.last_location = None;
                queue.error(self.sender, error);
                Some(session.into_cleanup())
            },
        }
    }

    /// A fix arrived, or what should have been one.
    pub fn handle_location(
        &mut self,
        queue: &mut CallbackQueue,
        session_path: &str,
        fields: &Vec<FixField>,
    ) -> (r: Option<SessionCleanup>)
        ensures
            ({
                let before = link(old(self)@, old(queue)@);
                if !old(self)@.session_active(Some(session_path@)) {
                    link(final(self)@, final(queue)@) == before && r is None
                } else {
                    (link(final(self)@, final(queue)@), opt_cleanup(r)) == match fix::parsed(
                        fields@,
                    ) {
                        Some(location) => before.served(location),
                        None => before.disappointed(Error::Unknown),
                    }
                }
            }),
    {
        if !portal_session_is_active(self, Some(session_path)) {
            return None;
        }
        let location = match fix::parse_location(fields) {
            Ok(location) => location,
            Err(error) => return self.handle_location_error(queue, Some(session_path), error),
        };
        self.last_location = Some(location);
        let request = self.one_shot.take();
        let (had_one_shot, deliver_one_shot) = match request {
            Some(request) => (true, one_shot::one_shot_is_fresher(&request, location.time)),
            None => (false, false),
        };
        let keep = self.continuous || !had_one_shot || self.authorization_pending;
        let cleanup = self.release_session(keep);
        if self.continuous || deliver_one_shot {
            queue.location(self.sender, location, deliver_one_shot, self.callback_generation);
        }
        cleanup
    }

    /// The portal sent something that is no fix. Whoever waits is told.
    pub fn handle_location_error(
        &mut self,
        queue: &mut CallbackQueue,
        session_path: Option<&str>,
        error: Error,
    ) -> (r: Option<SessionCleanup>)
        ensures
            ({
                let before = link(old(self)@, old(queue)@);
                let (after, cleanup) = if old(self)@.session_active(opt_str(session_path)) {
                    before.disappointed(error)
                } else {
                    (before, None)
                };
                &&& link(final(self)@, final(queue)@) == after
                &&& opt_cleanup(r) == cleanup
            }),
    {
        if !portal_session_is_active(self, session_path) {
            return None;
        }
        let had_one_shot = self.one_shot.take().is_some();
        let keep = !had_one_shot || self.continuous || self.authorization_pending;
        let cleanup = self.release_session(keep);
        if self.continuous || had_one_shot {
            queue.error(self.sender, error);
        }
        cleanup
    }

    /// The portal closed the session of its own accord.
    pub fn handle_session_closed(&mut self, queue: &mut CallbackQueue, session_path: &str)
        ensures
            link(final(self)@, final(queue)@) == if old(self)@.session matches Some(session)
                && session.handle == session_path@ {
                link(old(self)@, old(queue)@).lost()
            } else {
                link(old(self)@, old(queue)@)
            },
    {
        let ours = match &self.session {
            Some(session) => text::same(&session.handle, session_path),
            None => false,
        };
        if ours {
            self.provider_lost(queue);
        }
    }

    /// What a signal from the bus is about.
    pub fn classify_signal(
        &self,
        owner: &str,
        sender: Option<&str>,
        interface: Option<&str>,
        member: Option<&str>,
    ) -> (r: PortalSignal)
        ensures
            r == signal_kind(
                self@.usable(),
                owner@,
                opt_str(sender),
                opt_str(interface),
                opt_str(member),
            ),
    {
        match sender {
            Some(sender) => {
                if !text::same(sender, owner) {
                    return PortalSignal::Ignored;
                }
            },
            None => return PortalSignal::Ignored,
        }
        let interface = match interface {
            Some(interface) => interface,
            None => return PortalSignal::Ignored,
        };
        let member = match member {
            Some(member) => member,
            None => return PortalSignal::Ignored,
        };
        if !self.is_usable() {
            PortalSignal::Ignored
        } else if text::same(interface, LOCATION_INTERFACE) && text::same(
            member,
            "LocationUpdated",
        ) {
            PortalSignal::LocationUpdated
        } else if text::same(interface, REQUEST_INTERFACE) && text::same(member, "Response") {
            PortalSignal::Response
        } else if text::same(interface, SESSION_INTERFACE) && text::same(member, "Closed") {
            PortalSignal::SessionClosed
        } else {
            PortalSignal::Ignored
        }
    }

    /// The application is done with the connection. What has to be closed at the portal is
    /// returned.
    pub fn shut(&mut self) -> (r: Option<SessionCleanup>)
        ensures
            final(self)@ == (PortalModel {
                dropped: true,
                available: false,
                session: None,
                ..old(self)@
            }),
            opt_cleanup(r) == old(self)@.surplus(false),
    {
        self.dropped = true;
        self.available = false;
        self.release_session(false)
    }
}

impl Link {
    /// Whoever waits for a fix is told that there is none, and a request for a single fix is over.
    pub open spec fn disappointed(self, error: Error) -> (Link, Option<CleanupModel>) {
        let over = PortalModel { one_shot: None, ..self.portal };
        let keep = over.continuous || over.authorization_pending || self.portal.one_shot is None;
        let told = if over.continuous || self.portal.one_shot is Some {
            self.told(error)
        } else {
            self
        };
        (link(over.keeping_session(keep), told.queue), over.surplus(keep))
    }

    /// A fix of the active session arrived: it is remembered, goes to the stream and to a request
    /// for a single fix if it is news to it, and completes that request. A session that nobody else
    /// needs is over.
    pub open spec fn served(self, location: LocationData) -> (Link, Option<CleanupModel>) {
        let over = PortalModel { last_location: Some(location), one_shot: None, ..self.portal };
        let one_shot = self.portal.one_shot matches Some(request) && one_shot::is_fresher(
            request,
            location.time,
        );
        let keep = over.continuous || over.authorization_pending || self.portal.one_shot is None;
        let queue = if over.continuous || one_shot {
            self.queue.enqueued(
                over.sender.epoch,
                CallbackEvent::Location {
                    location,
                    one_shot,
                    generation: over.callback_generation,
                },
            )
        } else {
            self.queue
        };
        (link(over.keeping_session(keep), queue), over.surplus(keep))
    }

    /// A request for a single fix whose time is over is given up. Whoever got a cached fix is not
    /// told. A session that nobody else needs is over.
    pub open spec fn expired(self, now: u64) -> (Link, Option<CleanupModel>) {
        if !self.portal.usable() || self.portal.one_shot is None
            || self.portal.one_shot->0.deadline > now {
            (self, None)
        } else {
            let over = PortalModel { one_shot: None, ..self.portal };
            let keep = over.expectant();
            let told = if self.portal.one_shot->0.delivered_cached {
                self
            } else {
                self.told(Error::TemporarilyUnavailable)
            };
            (link(over.keeping_session(keep), told.queue), over.surplus(keep))
        }
    }

    /// The portal answered a start request. Where the user agreed, the session is active, as long as
    /// somebody needs it; otherwise it is over, and so is everything that was asked for.
    pub open spec fn answered(self, request: Seq<char>, response: u32) -> (
        Link,
        Option<CleanupModel>,
    ) {
        match self.portal.session {
            Some(session) => if session.request != request {
                (self, None)
            } else if response == 0 {
                let active = PortalModel {
                    session: Some(SessionModel { phase: SessionPhase::Active, ..session }),
                    authorization_pending: false,
                    ..self.portal
                };
                let keep = active.expectant();
                (link(active.keeping_session(keep), self.queue), active.surplus(keep))
            } else {
                let refused = link(
                    self.portal.cleared(),
                    self.queue.generation_advanced(
                        self.portal.sender.epoch,
                        next_generation(self.portal.callback_generation),
                    ),
                );
                (refused.told(response_error(response)->0), Some(session.cleanup()))
            },
            None => (self, None),
        }
    }
}

} // verus!
