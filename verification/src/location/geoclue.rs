//! Locations from GeoClue directly: what each request and each signal does to the connection's
//! state, and what has to be asked of the daemon next.
//!
//! As with the portal, a call on the bus is never made here: a [`GeoStep`] says which one is due.

use super::bus_errors;
use super::callbacks::{CallbackEvent, CallbackQueue, CallbackSender, QueueState};
use super::fix;
use super::fix::FixField;
use super::one_shot;
use super::one_shot::{OneShot, ONE_SHOT_TIMEOUT};
use super::portal;
use super::{Access, Accuracy, Error, LocationData, Result};
use crate::bus::BusError;
use crate::text;
use crate::time::Timestamp;
use vstd::prelude::*;

verus! {

pub const GEOCLUE_DESTINATION: &'static str = "org.freedesktop.GeoClue2";

pub const CLIENT_INTERFACE: &'static str = "org.freedesktop.GeoClue2.Client";

pub const PROPERTIES_INTERFACE: &'static str = "org.freedesktop.DBus.Properties";

pub const GEOCLUE_ACCURACY_CITY: u32 = 4;

pub const GEOCLUE_ACCURACY_EXACT: u32 = 8;

/// GeoClue's number for an accuracy. It is not the portal's.
pub open spec fn accuracy_level(accuracy: Accuracy) -> u32 {
    match accuracy {
        Accuracy::Approximate => GEOCLUE_ACCURACY_CITY,
        Accuracy::Precise => GEOCLUE_ACCURACY_EXACT,
    }
}

pub fn geoclue_accuracy(accuracy: Accuracy) -> (r: u32)
    ensures
        r == accuracy_level(accuracy),
{
    match accuracy {
        Accuracy::Approximate => GEOCLUE_ACCURACY_CITY,
        Accuracy::Precise => GEOCLUE_ACCURACY_EXACT,
    }
}

/// A client object that the daemon made for us.
#[derive(Debug)]
pub struct Client {
    pub path: String,
    /// The unique bus owner that created `path`. A queued signal of an old daemon is told by it.
    pub owner: String,
    pub configured_accuracy: u32,
}

pub struct ClientModel {
    pub path: Seq<char>,
    pub owner: Seq<char>,
    pub configured_accuracy: u32,
}

impl View for Client {
    type V = ClientModel;

    open spec fn view(&self) -> ClientModel {
        ClientModel {
            path: self.path@,
            owner: self.owner@,
            configured_accuracy: self.configured_accuracy,
        }
    }
}

impl Client {
    pub fn copy(&self) -> (r: Client)
        ensures
            r@ == self@,
    {
        Client {
            path: self.path.clone(),
            owner: self.owner.clone(),
            configured_accuracy: self.configured_accuracy,
        }
    }
}

pub open spec fn opt_client(client: Option<Client>) -> Option<ClientModel> {
    match client {
        Some(client) => Some(client@),
        None => None,
    }
}

/// The state of a connection to GeoClue.
pub struct GeoState {
    pub accuracy: Accuracy,
    pub callback_generation: u64,
    pub client: Option<Client>,
    pub starting: bool,
    pub started: bool,
    pub authorization_pending: bool,
    pub continuous: bool,
    pub one_shot: Option<OneShot>,
    pub last_location: Option<LocationData>,
    pub available: bool,
    pub dropped: bool,
    pub sender: CallbackSender,
}

pub struct GeoModel {
    pub accuracy: Accuracy,
    pub callback_generation: u64,
    pub client: Option<ClientModel>,
    pub starting: bool,
    pub started: bool,
    pub authorization_pending: bool,
    pub continuous: bool,
    pub one_shot: Option<OneShot>,
    pub last_location: Option<LocationData>,
    pub available: bool,
    pub dropped: bool,
    pub sender: CallbackSender,
}

impl View for GeoState {
    type V = GeoModel;

    open spec fn view(&self) -> GeoModel {
        GeoModel {
            accuracy: self.accuracy,
            callback_generation: self.callback_generation,
            client: opt_client(self.client),
            starting: self.starting,
            started: self.started,
            authorization_pending: self.authorization_pending,
            continuous: self.continuous,
            one_shot: self.one_shot,
            last_location: self.last_location,
            available: self.available,
            dropped: self.dropped,
            sender: self.sender,
        }
    }
}

/// What an application asked for, while it takes several calls on the bus.
#[derive(Clone, Copy, Debug, PartialEq, Eq, Structural)]
pub enum GeoOperation {
    /// Setting up the connection.
    Construct,
    /// Replacing the client for a request for authorization.
    Replace,
    /// Starting the client for a request for authorization.
    Authorize,
    UpdateOnce { had_one_shot: bool },
    StartUpdates { was_continuous: bool },
}

/// What to do on the bus next.
#[derive(Debug)]
pub enum GeoStep {
    /// Nothing: the operation is over.
    Finished(Result<()>),
    /// Ask the daemon for a client, then call [`GeoState::client_obtained`].
    GetClient(GeoOperation),
    /// Set the client's properties, then call [`GeoState::client_configured`].
    Configure { operation: GeoOperation, client: Client },
    /// Start the client, then call [`GeoState::client_started`].
    Start { operation: GeoOperation, client: Client },
    /// Set the client's accuracy, then call [`GeoState::accuracy_set`].
    SetAccuracy { client: Client, accuracy: u32 },
    /// Stop the client, then call [`GeoState::retired_client_stopped`].
    StopRetired(Client),
    /// Delete the client, then call [`GeoState::retired_client_deleted`].
    Delete(Client),
    /// Stop the client, then call [`GeoState::client_stopped`].
    Stop(Client),
}

pub enum GeoStepModel {
    Finished(Result<()>),
    GetClient(GeoOperation),
    Configure { operation: GeoOperation, client: ClientModel },
    Start { operation: GeoOperation, client: ClientModel },
    SetAccuracy { client: ClientModel, accuracy: u32 },
    StopRetired(ClientModel),
    Delete(ClientModel),
    Stop(ClientModel),
}

impl View for GeoStep {
    type V = GeoStepModel;

    open spec fn view(&self) -> GeoStepModel {
        match *self {
            GeoStep::Finished(result) => GeoStepModel::Finished(result),
            GeoStep::GetClient(operation) => GeoStepModel::GetClient(operation),
            GeoStep::Configure { operation, client } => GeoStepModel::Configure {
                operation,
                client: client@,
            },
            GeoStep::Start { operation, client } => GeoStepModel::Start {
                operation,
                client: client@,
            },
            GeoStep::SetAccuracy { client, accuracy } => GeoStepModel::SetAccuracy {
                client: client@,
                accuracy,
            },
            GeoStep::StopRetired(client) => GeoStepModel::StopRetired(client@),
            GeoStep::Delete(client) => GeoStepModel::Delete(client@),
            GeoStep::Stop(client) => GeoStepModel::Stop(client@),
        }
    }
}

/// A connection and the callback queue it feeds.
pub struct GeoLink {
    pub geo: GeoModel,
    pub queue: QueueState,
}

pub struct GeoOutcome {
    pub link: GeoLink,
    pub step: GeoStepModel,
}

pub open spec fn link(geo: GeoModel, queue: QueueState) -> GeoLink {
    GeoLink { geo, queue }
}

pub open spec fn outcome(geo: GeoModel, queue: QueueState, step: GeoStepModel) -> GeoOutcome {
    GeoOutcome { link: GeoLink { geo, queue }, step }
}

impl GeoModel {
    pub open spec fn usable(self) -> bool {
        self.available && !self.dropped
    }

    /// The client is still the one in use, whatever its accuracy.
    pub open spec fn is_current(self, client: ClientModel) -> bool {
        self.client matches Some(current) && current.path == client.path && current.owner
            == client.owner
    }

    pub open spec fn expectant(self) -> bool {
        self.authorization_pending || self.continuous || self.one_shot is Some
    }

    /// The client collects fixes, or is about to.
    pub open spec fn running(self) -> bool {
        self.started || self.starting
    }

    pub open spec fn halted(self) -> GeoModel {
        GeoModel { started: false, starting: false, ..self }
    }

    /// Nothing is asked of the connection any more, and it remembers nothing.
    pub open spec fn cleared(self) -> GeoModel {
        GeoModel {
            callback_generation: portal::next_generation(self.callback_generation),
            client: None,
            starting: false,
            started: false,
            authorization_pending: false,
            continuous: false,
            one_shot: None,
            last_location: None,
            ..self
        }
    }

    pub open spec fn without_intents(self) -> GeoModel {
        GeoModel { authorization_pending: false, continuous: false, one_shot: None, ..self }
    }

    /// The client and the fix that came from it are forgotten.
    pub open spec fn without_client(self) -> GeoModel {
        GeoModel { client: None, last_location: None, ..self }
    }

    /// What a failed operation leaves behind: the wishes it brought are dropped.
    pub open spec fn after_failure(self, operation: GeoOperation) -> GeoModel {
        match operation {
            GeoOperation::Construct => self,
            GeoOperation::Replace | GeoOperation::Authorize => self.without_intents(),
            GeoOperation::UpdateOnce { had_one_shot } => if had_one_shot {
                self
            } else {
                GeoModel { one_shot: None, ..self }
            },
            GeoOperation::StartUpdates { was_continuous } => if was_continuous {
                self
            } else {
                GeoModel { continuous: false, ..self }
            },
        }
    }

    /// The fix that can answer a one-shot request right away.
    pub open spec fn replay(self, now: Timestamp) -> Option<LocationData> {
        match self.last_location {
            Some(location) => if self.one_shot is Some && super::is_recent(location.time, now) {
                Some(LocationData { freshness: super::Freshness::Cached, ..location })
            } else {
                None
            },
            None => None,
        }
    }
}

impl GeoLink {
    pub open spec fn told(self, error: Error) -> GeoLink {
        GeoLink {
            queue: self.queue.enqueued(self.geo.sender.epoch, CallbackEvent::Error(error)),
            ..self
        }
    }

    /// The connection starts afresh; whoever waited is told that there is no location now.
    pub open spec fn lost(self) -> GeoLink {
        let generation = portal::next_generation(self.geo.callback_generation);
        let epoch = self.geo.sender.epoch;
        let after = GeoLink {
            geo: self.geo.cleared(),
            queue: self.queue.generation_advanced(epoch, generation),
        };
        if self.geo.expectant() || self.queue.discards_one_shot(epoch, generation) {
            after.told(Error::TemporarilyUnavailable)
        } else {
            after
        }
    }

    /// The connection is given up for good. Only the first time is reported.
    pub open spec fn failed_closed(self) -> GeoLink {
        if self.geo.available {
            GeoLink { geo: GeoModel { available: false, ..self.geo }, ..self }.lost()
        } else {
            self
        }
    }

    /// A one-shot request is answered with the fix at hand, if there is one.
    pub open spec fn replayed(self, now: Timestamp) -> GeoLink {
        match self.geo.replay(now) {
            Some(location) => GeoLink {
                geo: GeoModel {
                    one_shot: Some(
                        OneShot {
                            newer_than: location.time,
                            delivered_cached: true,
                            ..self.geo.one_shot->0
                        },
                    ),
                    ..self.geo
                },
                queue: self.queue.enqueued(
                    self.geo.sender.epoch,
                    CallbackEvent::Location {
                        location,
                        one_shot: true,
                        generation: self.geo.callback_generation,
                    },
                ),
            },
            None => self,
        }
    }

    /// Nothing acquired under another accuracy is delivered or replayed, and a request for a single
    /// fix starts over, be it outstanding or answered with a fix that is dropped now.
    pub open spec fn retuned(self, accuracy: Accuracy, now: u64) -> GeoLink {
        let generation = portal::next_generation(self.geo.callback_generation);
        let epoch = self.geo.sender.epoch;
        GeoLink {
            geo: GeoModel {
                accuracy,
                last_location: None,
                callback_generation: generation,
                one_shot: if self.geo.one_shot is Some || self.queue.discards_one_shot(
                    epoch,
                    generation,
                ) {
                    Some(one_shot::fresh_request(now))
                } else {
                    None
                },
                ..self.geo
            },
            queue: self.queue.generation_advanced(epoch, generation),
        }
    }

    pub open spec fn finished(self, result: Result<()>) -> GeoOutcome {
        GeoOutcome { link: self, step: GeoStepModel::Finished(result) }
    }

    pub open spec fn operation_failed(self, operation: GeoOperation, error: Error) -> GeoOutcome {
        GeoLink { geo: self.geo.after_failure(operation), ..self }.finished(Err(error))
    }

    /// The client is told to stop, if it runs. It is kept: it has the user's authorization.
    pub open spec fn stopping(self) -> GeoOutcome {
        let halted = GeoLink { geo: self.geo.halted(), ..self };
        if self.geo.client is Some && self.geo.running() {
            GeoOutcome { link: halted, step: GeoStepModel::Stop(self.geo.client->0) }
        } else {
            halted.finished(Ok(()))
        }
    }

    /// The client runs: the operation has what it needs.
    pub open spec fn operation_succeeded(
        self,
        operation: GeoOperation,
        now: Timestamp,
    ) -> GeoOutcome {
        match operation {
            GeoOperation::Authorize => {
                let authorized = GeoLink {
                    geo: GeoModel { authorization_pending: false, ..self.geo },
                    ..self
                };
                if authorized.geo.expectant() {
                    authorized.finished(Ok(()))
                } else {
                    authorized.stopping()
                }
            },
            GeoOperation::UpdateOnce { .. } => self.replayed(now).finished(Ok(())),
            _ => self.finished(Ok(())),
        }
    }

    /// The client is there and configured: it has to be started.
    pub open spec fn launched(
        self,
        operation: GeoOperation,
        client: ClientModel,
        now: Timestamp,
    ) -> GeoOutcome {
        if self.geo.started {
            self.operation_succeeded(operation, now)
        } else if client.configured_accuracy != accuracy_level(self.geo.accuracy) {
            self.failed_closed().operation_failed(operation, Error::Unknown)
        } else {
            GeoOutcome {
                link: GeoLink { geo: GeoModel { starting: true, ..self.geo }, ..self },
                step: GeoStepModel::Start { operation, client },
            }
        }
    }

    /// The operation needs a running client.
    pub open spec fn start_wanted(self, operation: GeoOperation, now: Timestamp) -> GeoOutcome {
        if !self.geo.usable() {
            self.operation_failed(operation, Error::TemporarilyUnavailable)
        } else if self.geo.started {
            self.operation_succeeded(operation, now)
        } else {
            match self.geo.client {
                Some(client) => self.launched(operation, client, now),
                None => GeoOutcome { link: self, step: GeoStepModel::GetClient(operation) },
            }
        }
    }

    /// The request for authorization has a client of the right accuracy.
    pub open spec fn authorizing(self, now: Timestamp) -> GeoOutcome {
        if self.geo.started {
            self.finished(Ok(()))
        } else {
            GeoLink {
                geo: GeoModel { authorization_pending: true, ..self.geo },
                ..self
            }.start_wanted(GeoOperation::Authorize, now)
        }
    }

    /// The client of the old accuracy is gone: a new one has to be made.
    pub open spec fn replacing(self, now: Timestamp) -> GeoOutcome {
        match self.geo.client {
            Some(_) => self.authorizing(now),
            None => if !self.geo.usable() {
                self.operation_failed(GeoOperation::Replace, Error::TemporarilyUnavailable)
            } else {
                GeoOutcome { link: self, step: GeoStepModel::GetClient(GeoOperation::Replace) }
            },
        }
    }

    /// The client of the old accuracy has to go.
    pub open spec fn retiring(self, now: Timestamp) -> GeoOutcome {
        let retired = GeoLink { geo: self.geo.halted().without_client(), ..self };
        match self.geo.client {
            None => retired.replacing(now),
            Some(client) => if self.geo.running() {
                GeoOutcome { link: retired, step: GeoStepModel::StopRetired(client) }
            } else {
                GeoOutcome { link: retired, step: GeoStepModel::Delete(client) }
            },
        }
    }

    /// Nobody waits for a fix any more: the client is told to stop.
    pub open spec fn stopping_if_idle(self) -> GeoOutcome {
        if self.geo.usable() && !self.geo.expectant() {
            self.stopping()
        } else {
            self.finished(Ok(()))
        }
    }

    /// Whoever waits for a fix is told that there is none, and a request for a single fix is over.
    pub open spec fn disappointed(self, client: ClientModel, error: Error) -> GeoOutcome {
        if !self.geo.is_current(client) {
            self.finished(Ok(()))
        } else {
            let over = GeoModel { one_shot: None, ..self.geo };
            let told = if self.geo.continuous || self.geo.one_shot is Some {
                self.told(error)
            } else {
                self
            };
            let after = link(over, told.queue);
            if self.geo.one_shot is Some {
                after.stopping_if_idle()
            } else {
                after.finished(Ok(()))
            }
        }
    }
}

/// What a signal from the daemon is about.
#[derive(Clone, Copy, Debug, PartialEq, Eq, Structural)]
pub enum GeoSignal {
    LocationUpdated,
    PropertiesChanged,
    Ignored,
}

/// Only our client, as made by the daemon that made it, is listened to.
pub open spec fn signal_kind(
    client: Option<ClientModel>,
    path: Option<Seq<char>>,
    sender: Option<Seq<char>>,
    interface: Option<Seq<char>>,
    member: Option<Seq<char>>,
) -> GeoSignal {
    match client {
        Some(client) => if path != Some(client.path) || sender != Some(client.owner) {
            GeoSignal::Ignored
        } else if interface == Some(CLIENT_INTERFACE@) && member == Some("LocationUpdated"@) {
            GeoSignal::LocationUpdated
        } else if interface == Some(PROPERTIES_INTERFACE@) && member == Some(
            "PropertiesChanged"@,
        ) {
            GeoSignal::PropertiesChanged
        } else {
            GeoSignal::Ignored
        },
        None => GeoSignal::Ignored,
    }
}

/// Where the new fix can be read, if the signal says so: it may say that there is none, or make no
/// sense at all.
pub fn updated_location(new_path: Option<String>) -> (r: Result<String>)
    ensures
        match new_path {
            None => r == Err::<String, Error>(Error::Unknown),
            Some(path) => if path@ == "/"@ {
                r == Err::<String, Error>(Error::TemporarilyUnavailable)
            } else {
                r == Ok::<String, Error>(path)
            },
        },
{
    match new_path {
        None => Err(Error::Unknown),
        Some(path) => if text::same(&path, "/") {
            Err(Error::TemporarilyUnavailable)
        } else {
            Ok(path)
        },
    }
}

/// What a change of properties says about whether the client is active.
#[derive(Clone, Copy, Debug, PartialEq, Eq, Structural)]
pub enum ActiveReport {
    /// It says nothing.
    Silent,
    /// The client is active, or not.
    Is(bool),
    /// The property has to be read.
    Ask,
}

/// Reads a change of properties: `changed` is the new value of `Active` if it is a boolean that was
/// sent along, and `invalidated` are the names sent without a value.
pub fn active_report(interface: &str, changed: Option<bool>, invalidated: &Vec<String>) -> (r:
    ActiveReport)
    ensures
        r == if interface@ != CLIENT_INTERFACE@ {
            ActiveReport::Silent
        } else {
            match changed {
                Some(active) => ActiveReport::Is(active),
                None => if text::texts(invalidated@).contains("Active"@) {
                    ActiveReport::Ask
                } else {
                    ActiveReport::Silent
                },
            }
        },
{
    if !text::same(interface, CLIENT_INTERFACE) {
        return ActiveReport::Silent;
    }
    if let Some(active) = changed {
        return ActiveReport::Is(active);
    }
    for i in 0..invalidated.len()
        invariant
            interface@ == CLIENT_INTERFACE@,
            changed is None,
            forall|j: int| 0 <= j < i ==> (#[trigger] text::texts(invalidated@)[j]) != "Active"@,
    {
        if text::same(&invalidated[i], "Active") {
            assert(text::texts(invalidated@)[i as int] == "Active"@);
            assert(text::texts(invalidated@).contains("Active"@));
            return ActiveReport::Ask;
        }
    }
    ActiveReport::Silent
}

impl GeoState {
    pub fn new(sender: CallbackSender) -> (r: GeoState)
        ensures
            r@ == (GeoModel {
                accuracy: Accuracy::Approximate,
                callback_generation: 0,
                client: None,
                starting: false,
                started: false,
                authorization_pending: false,
                continuous: false,
                one_shot: None,
                last_location: None,
                available: true,
                dropped: false,
                sender,
            }),
    {
        GeoState {
            accuracy: Accuracy::Approximate,
            callback_generation: 0,
            client: None,
            starting: false,
            started: false,
            authorization_pending: false,
            continuous: false,
            one_shot: None,
            last_location: None,
            available: true,
            dropped: false,
            sender,
        }
    }

    pub fn ensure_available(&self) -> (r: Result<()>)
        ensures
            r == if self@.usable() {
                Ok::<(), Error>(())
            } else {
                Err(Error::TemporarilyUnavailable)
            },
    {
        if self.dropped || !self.available {
            Err(Error::TemporarilyUnavailable)
        } else {
            Ok(())
        }
    }

    pub fn is_usable(&self) -> (r: bool)
        ensures
            r == self@.usable(),
    {
        self.ensure_available().is_ok()
    }

    pub fn one_shot_deadline(&self) -> (r: Option<u64>)
        ensures
            r == match self@.one_shot {
                Some(request) => Some(request.deadline),
                None => None,
            },
    {
        match &self.one_shot {
            Some(request) => Some(request.deadline),
            None => None,
        }
    }

    /// Whether the client is still the one in use.
    pub fn client_is_current(&self, client: &Client) -> (r: bool)
        ensures
            r == self@.is_current(client@),
    {
        match &self.client {
            Some(current) => text::same(&current.path, &client.path) && text::same(
                &current.owner,
                &client.owner,
            ),
            None => false,
        }
    }

    fn copy_client(&self) -> (r: Option<Client>)
        ensures
            opt_client(r) == self@.client,
    {
        match &self.client {
            Some(client) => Some(client.copy()),
            None => None,
        }
    }

    fn clear_intents(&mut self)
        ensures
            final(self)@ == old(self)@.without_intents(),
    {
        self.authorization_pending = false;
        self.continuous = false;
        self.one_shot = None;
    }

    /// The provider is gone: everything asked of it is dropped, and whoever waited is told.
    pub fn provider_lost(&mut self, queue: &mut CallbackQueue)
        ensures
            link(final(self)@, final(queue)@) == link(old(self)@, old(queue)@).lost(),
    {
        let active = self.authorization_pending || self.continuous || self.one_shot.is_some();
        self.callback_generation = self.callback_generation.wrapping_add(1);
        let discarded_one_shot = queue.advance_generation(self.sender, self.callback_generation);
        self.client = None;
        self.starting = false;
        self.started = false;
        self.authorization_pending = false;
        self.continuous = false;
        self.one_shot = None;
        self.last_location = None;
        if active || discarded_one_shot {
            queue.error(self.sender, Error::TemporarilyUnavailable);
        }
    }

    /// Gives the connection up. Several threads may notice one loss; only the first reports it.
    pub fn fail_closed(&mut self, queue: &mut CallbackQueue)
        ensures
            link(final(self)@, final(queue)@) == link(old(self)@, old(queue)@).failed_closed(),
    {
        if self.available {
            self.available = false;
            self.provider_lost(queue);
        }
    }

    fn operation_failed(&mut self, operation: GeoOperation, error: Error) -> (step: GeoStep)
        ensures
            final(self)@ == old(self)@.after_failure(operation),
            step@ == GeoStepModel::Finished(Err(error)),
    {
        match operation {
            GeoOperation::Construct => {},
            GeoOperation::Replace => {
                self.clear_intents();
            },
            GeoOperation::Authorize => {
                self.clear_intents();
            },
            GeoOperation::UpdateOnce { had_one_shot } => {
                if !had_one_shot {
                    self.one_shot = None;
                }
            },
            GeoOperation::StartUpdates { was_continuous } => {
                if !was_continuous {
                    self.continuous = false;
                }
            },
        }
        GeoStep::Finished(Err(error))
    }

    /// Stops collecting but keeps the client: a new one would have to be authorized again.
    fn stop_client(&mut self) -> (step: GeoStep)
        ensures
            forall|queue: QueueState|
                #[trigger] outcome(final(self)@, queue, step@) == link(
                    old(self)@,
                    queue,
                ).stopping(),
    {
        let was_running = self.started || self.starting;
        self.started = false;
        self.starting = false;
        match self.copy_client() {
            Some(client) => if was_running {
                GeoStep::Stop(client)
            } else {
                GeoStep::Finished(Ok(()))
            },
            None => GeoStep::Finished(Ok(())),
        }
    }

    fn operation_succeeded(
        &mut self,
        queue: &mut CallbackQueue,
        operation: GeoOperation,
        wall: Timestamp,
    ) -> (step: GeoStep)
        ensures
            outcome(final(self)@, final(queue)@, step@) == link(
                old(self)@,
                old(queue)@,
            ).operation_succeeded(operation, wall),
    {
        match operation {
            GeoOperation::Authorize => {
                self.authorization_pending = false;
                if !self.continuous && self.one_shot.is_none() {
                    let step = self.stop_client();
                    assert(outcome(self@, queue@, step@) == link(
                        GeoModel { authorization_pending: false, ..old(self)@ },
                        queue@,
                    ).stopping());
                    return step;
                }
            },
            GeoOperation::UpdateOnce { .. } => {
                if let Some(request) = self.one_shot {
                    if let Some(location) = self.last_location {
                        if super::cached_fix_is_recent(location.time, wall) {
                            let cached = location.as_cached();
                            self.one_shot = Some(
                                OneShot {
                                    newer_than: cached.time,
                                    delivered_cached: true,
                                    ..request
                                },
                            );
                            queue.location(self.sender, cached, true, self.callback_generation);
                        }
                    }
                }
            },
            _ => {},
        }
        GeoStep::Finished(Ok(()))
    }

    fn launch(
        &mut self,
        queue: &mut CallbackQueue,
        operation: GeoOperation,
        client: Client,
        wall: Timestamp,
    ) -> (step: GeoStep)
        ensures
            outcome(final(self)@, final(queue)@, step@) == link(old(self)@, old(queue)@).launched(
                operation,
                client@,
                wall,
            ),
    {
        if self.started {
            return self.operation_succeeded(queue, operation, wall);
        }
        if client.configured_accuracy != geoclue_accuracy(self.accuracy) {
            self.fail_closed(queue);
            return self.operation_failed(operation, Error::Unknown);
        }
        self.starting = true;
        GeoStep::Start { operation, client }
    }

    /// Sees to it that the client runs.
    fn start_client(
        &mut self,
        queue: &mut CallbackQueue,
        operation: GeoOperation,
        wall: Timestamp,
    ) -> (step: GeoStep)
        ensures
            outcome(final(self)@, final(queue)@, step@) == link(
                old(self)@,
                old(queue)@,
            ).start_wanted(operation, wall),
    {
        if let Err(error) = self.ensure_available() {
            return self.operation_failed(operation, error);
        }
        if self.started {
            return self.operation_succeeded(queue, operation, wall);
        }
        match self.copy_client() {
            Some(client) => self.launch(queue, operation, client, wall),
            None => GeoStep::GetClient(operation),
        }
    }

    fn authorize(&mut self, queue: &mut CallbackQueue, wall: Timestamp) -> (step: GeoStep)
        ensures
            outcome(final(self)@, final(queue)@, step@) == link(
                old(self)@,
                old(queue)@,
            ).authorizing(wall),
    {
        if self.started {
            return GeoStep::Finished(Ok(()));
        }
        self.authorization_pending = true;
        self.start_client(queue, GeoOperation::Authorize, wall)
    }

    fn replace_client(&mut self, queue: &mut CallbackQueue, wall: Timestamp) -> (step: GeoStep)
        ensures
            outcome(final(self)@, final(queue)@, step@) == link(old(self)@, old(queue)@).replacing(
                wall,
            ),
    {
        if self.client.is_some() {
            return self.authorize(queue, wall);
        }
        if let Err(error) = self.ensure_available() {
            return self.operation_failed(GeoOperation::Replace, error);
        }
        GeoStep::GetClient(GeoOperation::Replace)
    }

    /// Drops the client locally before the daemon is told, so that its queued signals are rejected
    /// even if stopping is slow.
    fn retire_client(&mut self, queue: &mut CallbackQueue, wall: Timestamp) -> (step: GeoStep)
        ensures
            outcome(final(self)@, final(queue)@, step@) == link(old(self)@, old(queue)@).retiring(
                wall,
            ),
    {
        let client = self.client.take();
        let was_running = self.started || self.starting;
        self.started = false;
        self.starting = false;
        self.last_location = None;
        match client {
            None => self.replace_client(queue, wall),
            Some(client) => if was_running {
                GeoStep::StopRetired(client)
            } else {
                GeoStep::Delete(client)
            },
        }
    }

    /// Makes sure of a client while the connection is set up.
    pub fn construct(&mut self) -> (step: GeoStep)
        ensures
            final(self)@ == old(self)@,
            step@ == if old(self)@.client is Some {
                GeoStepModel::Finished(Ok(()))
            } else if !old(self)@.usable() {
                GeoStepModel::Finished(Err(Error::TemporarilyUnavailable))
            } else {
                GeoStepModel::GetClient(GeoOperation::Construct)
            },
    {
        if self.client.is_some() {
            return GeoStep::Finished(Ok(()));
        }
        if let Err(error) = self.ensure_available() {
            return GeoStep::Finished(Err(error));
        }
        GeoStep::GetClient(GeoOperation::Construct)
    }

    /// Asks for permission to get locations of that accuracy.
    ///
    /// Where the accuracy changes, the client that is authorized already is retuned if it does not
    /// run; otherwise it is replaced.
    pub fn request_authorization(
        &mut self,
        queue: &mut CallbackQueue,
        _access: Access,
        accuracy: Accuracy,
        now: u64,
        wall: Timestamp,
    ) -> (step: GeoStep)
        requires
            now + ONE_SHOT_TIMEOUT <= u64::MAX,
        ensures
            ({
                let before = link(old(self)@, old(queue)@);
                let retuned = before.retuned(accuracy, now);
                outcome(final(self)@, final(queue)@, step@) == if !old(self)@.usable() {
                    before.finished(Err(Error::TemporarilyUnavailable))
                } else if accuracy_level(old(self)@.accuracy) == accuracy_level(accuracy) {
                    before.authorizing(wall)
                } else if old(self)@.client is Some && !old(self)@.running() {
                    GeoOutcome {
                        link: retuned,
                        step: GeoStepModel::SetAccuracy {
                            client: old(self)@.client->0,
                            accuracy: accuracy_level(accuracy),
                        },
                    }
                } else {
                    retuned.retiring(wall)
                }
            }),
    {
        if let Err(error) = self.ensure_available() {
            return GeoStep::Finished(Err(error));
        }
        if geoclue_accuracy(self.accuracy) == geoclue_accuracy(accuracy) {
            return self.authorize(queue, wall);
        }
        self.accuracy = accuracy;
        self.last_location = None;
        self.callback_generation = self.callback_generation.wrapping_add(1);
        let discarded_one_shot = queue.advance_generation(self.sender, self.callback_generation);
        if self.one_shot.is_some() || discarded_one_shot {
            self.one_shot = Some(OneShot::begin(now));
        }
        if !self.started && !self.starting {
            if let Some(client) = self.copy_client() {
                return GeoStep::SetAccuracy { client, accuracy: geoclue_accuracy(accuracy) };
            }
        }
        self.retire_client(queue, wall)
    }

    /// The accuracy of the client was set, or could not be.
    pub fn accuracy_set(
        &mut self,
        queue: &mut CallbackQueue,
        client: &Client,
        accuracy: u32,
        applied: bool,
        wall: Timestamp,
    ) -> (step: GeoStep)
        ensures
            outcome(final(self)@, final(queue)@, step@) == if !old(self)@.is_current(client@) {
                link(old(self)@, old(queue)@).retiring(wall)
            } else if applied {
                link(
                    GeoModel {
                        client: Some(
                            ClientModel {
                                configured_accuracy: accuracy,
                                ..old(self)@.client->0
                            },
                        ),
                        ..old(self)@
                    },
                    old(queue)@,
                ).authorizing(wall)
            } else {
                link(old(self)@.without_client(), old(queue)@).retiring(wall)
            },
    {
        if !self.client_is_current(client) {
            return self.retire_client(queue, wall);
        }
        if applied {
            if let Some(current) = self.client.take() {
                self.client = Some(Client { configured_accuracy: accuracy, ..current });
            }
            self.authorize(queue, wall)
        } else {
            // The handle goes, so that a correctly configured client is made.
            self.client = None;
            self.last_location = None;
            self.retire_client(queue, wall)
        }
    }

    /// The client that is to go was stopped, or could not be.
    pub fn retired_client_stopped(
        &mut self,
        queue: &mut CallbackQueue,
        client: Client,
        stopped: std::result::Result<(), BusError>,
        wall: Timestamp,
    ) -> (step: GeoStep)
        ensures
            ({
                let before = link(old(self)@, old(queue)@);
                outcome(final(self)@, final(queue)@, step@) == match stopped {
                    Ok(_) => GeoOutcome { link: before, step: GeoStepModel::Delete(client@) },
                    Err(error) => if bus_errors::gone(error@) {
                        before.replacing(wall)
                    } else {
                        before.failed_closed().operation_failed(
                            GeoOperation::Replace,
                            bus_errors::geoclue_error(error@),
                        )
                    },
                }
            }),
    {
        match stopped {
            Ok(_) => GeoStep::Delete(client),
            Err(error) => {
                if bus_errors::is_gone_error(&error) {
                    return self.replace_client(queue, wall);
                }
                let error = bus_errors::map_geoclue_error(&error);
                self.fail_closed(queue);
                self.operation_failed(GeoOperation::Replace, error)
            },
        }
    }

    /// The client that is to go was deleted, or could not be.
    pub fn retired_client_deleted(
        &mut self,
        queue: &mut CallbackQueue,
        deleted: std::result::Result<(), BusError>,
        wall: Timestamp,
    ) -> (step: GeoStep)
        ensures
            ({
                let before = link(old(self)@, old(queue)@);
                outcome(final(self)@, final(queue)@, step@) == match deleted {
                    Ok(_) => before.replacing(wall),
                    Err(error) => if bus_errors::gone(error@) {
                        before.replacing(wall)
                    } else {
                        before.failed_closed().operation_failed(
                            GeoOperation::Replace,
                            bus_errors::geoclue_error(error@),
                        )
                    },
                }
            }),
    {
        if let Err(error) = deleted {
            if !bus_errors::is_gone_error(&error) {
                let error = bus_errors::map_geoclue_error(&error);
                self.fail_closed(queue);
                return self.operation_failed(GeoOperation::Replace, error);
            }
        }
        self.replace_client(queue, wall)
    }

    /// The daemon made a client, or did not. `owner` is who answered.
    pub fn client_obtained(
        &mut self,
        operation: GeoOperation,
        obtained: Result<(Option<String>, String)>,
    ) -> (step: GeoStep)
        ensures
            match obtained {
                Err(error) => final(self)@ == old(self)@.after_failure(operation) && step@
                    == GeoStepModel::Finished(Err(error)),
                Ok((owner, path)) => if owner is None || path@ == "/"@ {
                    final(self)@ == old(self)@.after_failure(operation) && step@
                        == GeoStepModel::Finished(Err(Error::Unknown))
                } else {
                    let client = ClientModel {
                        path: path@,
                        owner: owner->0@,
                        configured_accuracy: accuracy_level(old(self)@.accuracy),
                    };
                    final(self)@ == (GeoModel { client: Some(client), ..old(self)@ }) && step@
                        == GeoStepModel::Configure { operation, client }
                },
            },
    {
        match obtained {
            Err(error) => self.operation_failed(operation, error),
            Ok((Some(owner), path)) => {
                if text::same(&path, "/") {
                    return self.operation_failed(operation, Error::Unknown);
                }
                let client = Client {
                    path,
                    owner,
                    configured_accuracy: geoclue_accuracy(self.accuracy),
                };
                // The client is known before it is configured, so that a change of owner can
                // invalidate it meanwhile.
                self.client = Some(client.copy());
                GeoStep::Configure { operation, client }
            },
            Ok((None, _)) => self.operation_failed(operation, Error::Unknown),
        }
    }

    /// The client's properties were set, or could not be.
    pub fn client_configured(
        &mut self,
        queue: &mut CallbackQueue,
        operation: GeoOperation,
        client: Client,
        configured: Result<()>,
        wall: Timestamp,
    ) -> (step: GeoStep)
        ensures
            ({
                let before = link(old(self)@, old(queue)@);
                let current = old(self)@.is_current(client@);
                outcome(final(self)@, final(queue)@, step@) == match configured {
                    Err(error) => link(
                        if current {
                            GeoModel { client: None, ..old(self)@ }
                        } else {
                            old(self)@
                        },
                        old(queue)@,
                    ).failed_closed().operation_failed(operation, error),
                    Ok(_) => if !current {
                        before.failed_closed().operation_failed(
                            operation,
                            Error::TemporarilyUnavailable,
                        )
                    } else {
                        match operation {
                            GeoOperation::Construct => before.finished(Ok(())),
                            GeoOperation::Replace => before.authorizing(wall),
                            _ => before.launched(operation, client@, wall),
                        }
                    },
                }
            }),
    {
        let current = self.client_is_current(&client);
        if let Err(error) = configured {
            if current {
                self.client = None;
            }
            self.fail_closed(queue);
            return self.operation_failed(operation, error);
        }
        if !current {
            self.fail_closed(queue);
            return self.operation_failed(operation, Error::TemporarilyUnavailable);
        }
        match operation {
            GeoOperation::Construct => GeoStep::Finished(Ok(())),
            GeoOperation::Replace => self.authorize(queue, wall),
            _ => self.launch(queue, operation, client, wall),
        }
    }

    /// The client was started, or was not. A failure that leaves open whether it was closes the
    /// connection: the daemon then destroys the client, so nothing is left collecting.
    pub fn client_started(
        &mut self,
        queue: &mut CallbackQueue,
        operation: GeoOperation,
        client: &Client,
        started: std::result::Result<(), BusError>,
        wall: Timestamp,
    ) -> (step: GeoStep)
        ensures
            ({
                let waited = GeoModel { starting: false, ..old(self)@ };
                outcome(final(self)@, final(queue)@, step@) == match started {
                    Ok(_) => if waited.is_current(client@) {
                        link(
                            GeoModel { started: true, ..waited },
                            old(queue)@,
                        ).operation_succeeded(operation, wall)
                    } else {
                        link(waited, old(queue)@).failed_closed().operation_failed(
                            operation,
                            Error::TemporarilyUnavailable,
                        )
                    },
                    Err(error) => {
                        let failed = link(GeoModel { started: false, ..waited }, old(queue)@);
                        (if bus_errors::definitive(error@) {
                            failed
                        } else {
                            failed.failed_closed()
                        }).operation_failed(operation, bus_errors::geoclue_error(error@))
                    },
                }
            }),
    {
        self.starting = false;
        match started {
            Ok(_) => {
                if self.client_is_current(client) {
                    self.started = true;
                    self.operation_succeeded(queue, operation, wall)
                } else {
                    self.fail_closed(queue);
                    self.operation_failed(operation, Error::TemporarilyUnavailable)
                }
            },
            Err(error) => {
                self.started = false;
                let public = bus_errors::map_geoclue_error(&error);
                if !bus_errors::is_definitive_start_error(&error) {
                    self.fail_closed(queue);
                }
                self.operation_failed(operation, public)
            },
        }
    }

    /// The client was stopped, or could not be.
    pub fn client_stopped(
        &mut self,
        queue: &mut CallbackQueue,
        client: &Client,
        stopped: std::result::Result<(), BusError>,
    ) -> (r: Result<()>)
        ensures
            ({
                let before = link(old(self)@, old(queue)@);
                match stopped {
                    Ok(_) => link(final(self)@, final(queue)@) == before && r == Ok::<(), Error>(
                        (),
                    ),
                    Err(error) => if bus_errors::gone(error@) {
                        &&& final(self)@ == if old(self)@.is_current(client@) {
                            old(self)@.without_client()
                        } else {
                            old(self)@
                        }
                        &&& final(queue)@ == old(queue)@
                        &&& r == Ok::<(), Error>(())
                    } else {
                        &&& link(final(self)@, final(queue)@) == before.failed_closed()
                        &&& r == Err::<(), Error>(bus_errors::geoclue_error(error@))
                    },
                }
            }),
    {
        match stopped {
            Ok(_) => Ok(()),
            Err(error) => {
                if bus_errors::is_gone_error(&error) {
                    if self.client_is_current(client) {
                        self.client = None;
                        self.last_location = None;
                    }
                    return Ok(());
                }
                let public = bus_errors::map_geoclue_error(&error);
                self.fail_closed(queue);
                Err(public)
            },
        }
    }

    /// Asks for one fix. A fix that is at hand answers right away; a newer one may follow.
    pub fn update_once(
        &mut self,
        queue: &mut CallbackQueue,
        now: u64,
        wall: Timestamp,
    ) -> (step: GeoStep)
        requires
            now + ONE_SHOT_TIMEOUT <= u64::MAX,
        ensures
            ({
                let before = link(old(self)@, old(queue)@);
                let wanting = GeoModel {
                    one_shot: if old(self)@.one_shot is Some {
                        old(self)@.one_shot
                    } else {
                        Some(one_shot::fresh_request(now))
                    },
                    ..old(self)@
                };
                outcome(final(self)@, final(queue)@, step@) == if !old(self)@.usable() {
                    before.finished(Err(Error::TemporarilyUnavailable))
                } else {
                    link(wanting, old(queue)@).start_wanted(
                        GeoOperation::UpdateOnce { had_one_shot: old(self)@.one_shot is Some },
                        wall,
                    )
                }
            }),
    {
        if let Err(error) = self.ensure_available() {
            return GeoStep::Finished(Err(error));
        }
        let had_one_shot = self.one_shot.is_some();
        if !had_one_shot {
            self.one_shot = Some(OneShot::begin(now));
        }
        self.start_client(queue, GeoOperation::UpdateOnce { had_one_shot }, wall)
    }

    /// Asks for every fix from now on.
    pub fn start_updates(&mut self, queue: &mut CallbackQueue, wall: Timestamp) -> (step: GeoStep)
        ensures
            ({
                let before = link(old(self)@, old(queue)@);
                outcome(final(self)@, final(queue)@, step@) == if !old(self)@.usable() {
                    before.finished(Err(Error::TemporarilyUnavailable))
                } else {
                    link(GeoModel { continuous: true, ..old(self)@ }, old(queue)@).start_wanted(
                        GeoOperation::StartUpdates { was_continuous: old(self)@.continuous },
                        wall,
                    )
                }
            }),
    {
        if let Err(error) = self.ensure_available() {
            return GeoStep::Finished(Err(error));
        }
        let was_continuous = self.continuous;
        self.continuous = true;
        self.start_client(queue, GeoOperation::StartUpdates { was_continuous }, wall)
    }

    /// Ends the stream of fixes. A client that nobody else needs is to be stopped.
    pub fn stop_updates(&mut self, queue: &mut CallbackQueue) -> (step: GeoStep)
        ensures
            ({
                let before = link(old(self)@, old(queue)@);
                let after = link(
                    GeoModel { continuous: false, ..old(self)@ },
                    old(queue)@.continuous_discarded(old(self)@.sender.epoch),
                );
                outcome(final(self)@, final(queue)@, step@) == if !old(self)@.usable() {
                    before.finished(Err(Error::TemporarilyUnavailable))
                } else {
                    after.stopping_if_idle()
                }
            }),
    {
        if let Err(error) = self.ensure_available() {
            return GeoStep::Finished(Err(error));
        }
        self.continuous = false;
        queue.discard_continuous_locations(self.sender);
        if self.one_shot.is_none() && !self.authorization_pending {
            let ghost halting = self@;
            let step = self.stop_client();
            assert(outcome(self@, queue@, step@) == link(halting, queue@).stopping());
            return step;
        }
        GeoStep::Finished(Ok(()))
    }

    /// Gives up on a request for a single fix whose time is over. Whoever got a cached fix is not
    /// told.
    pub fn expire_one_shot(&mut self, queue: &mut CallbackQueue, now: u64) -> (step: GeoStep)
        ensures
            outcome(final(self)@, final(queue)@, step@) == link(old(self)@, old(queue)@).expired(
                now,
            ),
    {
        if !self.is_usable() {
            return GeoStep::Finished(Ok(()));
        }
        let request = match self.one_shot {
            Some(request) => request,
            None => return GeoStep::Finished(Ok(())),
        };
        if request.deadline > now {
            return GeoStep::Finished(Ok(()));
        }
        self.one_shot = None;
        if !request.delivered_cached {
            queue.error(self.sender, Error::TemporarilyUnavailable);
        }
        self.retire_if_idle(queue)
    }

    /// Stops a client that nobody needs.
    fn retire_if_idle(&mut self, queue: &CallbackQueue) -> (step: GeoStep)
        ensures
            outcome(final(self)@, queue@, step@) == link(old(self)@, queue@).stopping_if_idle(),
    {
        if self.is_usable() && !self.continuous && self.one_shot.is_none()
            && !self.authorization_pending {
            let step = self.stop_client();
            assert(outcome(self@, queue@, step@) == link(old(self)@, queue@).stopping());
            return step;
        }
        GeoStep::Finished(Ok(()))
    }

    /// What a signal from the daemon is about.
    pub fn classify_signal(
        &self,
        path: Option<&str>,
        sender: Option<&str>,
        interface: Option<&str>,
        member: Option<&str>,
    ) -> (r: GeoSignal)
        ensures
            r == signal_kind(
                self@.client,
                portal::opt_str(path),
                portal::opt_str(sender),
                portal::opt_str(interface),
                portal::opt_str(member),
            ),
    {
        let (path, sender, interface, member) = match (path, sender, interface, member) {
            (Some(path), Some(sender), Some(interface), Some(member)) => (
                path,
                sender,
                interface,
                member,
            ),
            _ => return GeoSignal::Ignored,
        };
        let client = match &self.client {
            Some(client) => client,
            None => return GeoSignal::Ignored,
        };
        if !text::same(path, &client.path) || !text::same(sender, &client.owner) {
            GeoSignal::Ignored
        } else if text::same(interface, CLIENT_INTERFACE) && text::same(
            member,
            "LocationUpdated",
        ) {
            GeoSignal::LocationUpdated
        } else if text::same(interface, PROPERTIES_INTERFACE) && text::same(
            member,
            "PropertiesChanged",
        ) {
            GeoSignal::PropertiesChanged
        } else {
            GeoSignal::Ignored
        }
    }

    /// The values of a new fix were read, or could not be.
    pub fn handle_location(
        &mut self,
        queue: &mut CallbackQueue,
        client: &Client,
        values: Result<Vec<FixField>>,
    ) -> (step: GeoStep)
        ensures
            ({
                let before = link(old(self)@, old(queue)@);
                outcome(final(self)@, final(queue)@, step@) == if !old(self)@.usable() {
                    before.finished(Ok(()))
                } else {
                    match values {
                        Err(error) => before.disappointed(client@, error),
                        Ok(fields) => match fix::parsed(fields@) {
                            None => before.disappointed(client@, Error::Unknown),
                            Some(location) => before.served(client@, location),
                        },
                    }
                }
            }),
    {
        if !self.is_usable() {
            return GeoStep::Finished(Ok(()));
        }
        let fields = match values {
            Ok(fields) => fields,
            Err(error) => return self.handle_location_error(queue, client, error),
        };
        let location = match fix::parse_location(&fields) {
            Ok(location) => location,
            Err(error) => return self.handle_location_error(queue, client, error),
        };
        if !self.client_is_current(client) {
            return GeoStep::Finished(Ok(()));
        }
        self.last_location = Some(location);
        let request = self.one_shot.take();
        let (had_one_shot, deliver_one_shot) = match request {
            Some(request) => (true, one_shot::one_shot_is_fresher(&request, location.time)),
            None => (false, false),
        };
        if self.continuous || deliver_one_shot {
            queue.location(self.sender, location, deliver_one_shot, self.callback_generation);
        }
        if had_one_shot {
            return self.retire_if_idle(queue);
        }
        GeoStep::Finished(Ok(()))
    }

    /// The daemon sent something that is no fix. Whoever waits is told.
    pub fn handle_location_error(
        &mut self,
        queue: &mut CallbackQueue,
        client: &Client,
        error: Error,
    ) -> (step: GeoStep)
        ensures
            outcome(final(self)@, final(queue)@, step@) == if old(self)@.usable() {
                link(old(self)@, old(queue)@).disappointed(client@, error)
            } else {
                link(old(self)@, old(queue)@).finished(Ok(()))
            },
    {
        if !self.is_usable() {
            return GeoStep::Finished(Ok(()));
        }
        if !self.client_is_current(client) {
            return GeoStep::Finished(Ok(()));
        }
        let had_one_shot = self.one_shot.take().is_some();
        if self.continuous || had_one_shot {
            queue.error(self.sender, error);
        }
        if had_one_shot {
            return self.retire_if_idle(queue);
        }
        GeoStep::Finished(Ok(()))
    }

    /// Whether a report that the client is inactive is worth checking.
    pub fn may_be_inactive(&self, client: &Client) -> (r: bool)
        ensures
            r == (self@.usable() && self@.is_current(client@)),
    {
        self.is_usable() && self.client_is_current(client)
    }

    /// The client turned out to be inactive though we did not stop it: the user, or the system for
    /// them, took the permission back.
    ///
    /// `active` is what the daemon said when asked again: a report may be late, from before work
    /// that has been restarted since.
    pub fn handle_unexpected_inactive(
        &mut self,
        queue: &mut CallbackQueue,
        client: &Client,
        active: Result<bool>,
    )
        ensures
            ({
                let before = link(old(self)@, old(queue)@);
                link(final(self)@, final(queue)@) == if !old(self)@.usable() || !old(
                    self,
                )@.is_current(client@) || active != Ok::<bool, Error>(false) || !old(self)@.started
                    || old(self)@.authorization_pending {
                    before
                } else {
                    before.revoked()
                }
            }),
    {
        if !self.may_be_inactive(client) {
            return ;
        }
        match active {
            Ok(active) => {
                if active {
                    return ;
                }
            },
            Err(_) => {
                return ;
            },
        }
        // It is inactive after our own stop, and while a start is pending the answer to that is
        // what counts.
        if !self.started || self.authorization_pending {
            return ;
        }
        let expected = self.continuous || self.one_shot.is_some();
        self.callback_generation = self.callback_generation.wrapping_add(1);
        let discarded_one_shot = queue.advance_generation(self.sender, self.callback_generation);
        self.started = false;
        self.continuous = false;
        self.one_shot = None;
        self.last_location = None;
        if expected || discarded_one_shot {
            queue.error(self.sender, Error::AuthorizationDenied);
        }
    }

    /// Whether the bus reports that the daemon that made our client is gone. Anybody can send such
    /// a report; only the bus itself is believed. The activation of the daemon is no loss.
    pub fn owner_lost(
        &self,
        sender: Option<&str>,
        name: &str,
        old_owner: &str,
        new_owner: &str,
    ) -> (r: bool)
        ensures
            r == (portal::opt_str(sender) == Some(portal::DBUS_DESTINATION@) && name@
                == GEOCLUE_DESTINATION@ && old_owner@.len() > 0 && (self@.client matches Some(
                client,
            ) && client.owner == old_owner@) && old_owner@ != new_owner@),
    {
        match sender {
            Some(sender) => {
                if !text::same(sender, portal::DBUS_DESTINATION) {
                    return false;
                }
            },
            None => return false,
        }
        if !text::same(name, GEOCLUE_DESTINATION) || old_owner.is_empty() {
            return false;
        }
        let owner_is_current = match &self.client {
            Some(client) => text::same(&client.owner, old_owner),
            None => false,
        };
        owner_is_current && !text::same(old_owner, new_owner)
    }

    /// The application is done with the connection. Closing it makes the daemon delete the client.
    pub fn shut(&mut self)
        ensures
            final(self)@ == (GeoModel {
                dropped: true,
                available: false,
                client: None,
                ..old(self)@.halted().without_intents()
            }),
    {
        self.dropped = true;
        self.available = false;
        self.client = None;
        self.starting = false;
        self.started = false;
        self.clear_intents();
    }
}

impl GeoLink {
    /// A fix of our client arrived: it is remembered, goes to the stream and to a request for a
    /// single fix if it is news to it, and completes that request.
    pub open spec fn served(self, client: ClientModel, location: LocationData) -> GeoOutcome {
        if !self.geo.is_current(client) {
            self.finished(Ok(()))
        } else {
            let one_shot = self.geo.one_shot matches Some(request) && one_shot::is_fresher(
                request,
                location.time,
            );
            let after = link(
                GeoModel { last_location: Some(location), one_shot: None, ..self.geo },
                if self.geo.continuous || one_shot {
                    self.queue.enqueued(
                        self.geo.sender.epoch,
                        CallbackEvent::Location {
                            location,
                            one_shot,
                            generation: self.geo.callback_generation,
                        },
                    )
                } else {
                    self.queue
                },
            );
            if self.geo.one_shot is Some {
                after.stopping_if_idle()
            } else {
                after.finished(Ok(()))
            }
        }
    }

    /// A request for a single fix whose time is over is given up. Whoever got a cached fix is not
    /// told.
    pub open spec fn expired(self, now: u64) -> GeoOutcome {
        if !self.geo.usable() || self.geo.one_shot is None || self.geo.one_shot->0.deadline > now {
            self.finished(Ok(()))
        } else {
            let over = link(GeoModel { one_shot: None, ..self.geo }, self.queue);
            (if self.geo.one_shot->0.delivered_cached {
                over
            } else {
                over.told(Error::TemporarilyUnavailable)
            }).stopping_if_idle()
        }
    }

    /// The permission was taken back: nothing acquired under it is delivered or replayed.
    pub open spec fn revoked(self) -> GeoLink {
        let generation = portal::next_generation(self.geo.callback_generation);
        let epoch = self.geo.sender.epoch;
        let after = link(
            GeoModel {
                callback_generation: generation,
                started: false,
                continuous: false,
                one_shot: None,
                last_location: None,
                ..self.geo
            },
            self.queue.generation_advanced(epoch, generation),
        );
        if self.geo.continuous || self.geo.one_shot is Some || self.queue.discards_one_shot(
            epoch,
            generation,
        ) {
            after.told(Error::AuthorizationDenied)
        } else {
            after
        }
    }
}

} // verus!
