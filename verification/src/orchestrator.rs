//! The connection orchestrator: waits for the network, then builds and runs
//! one session after another.
//!
//! An attempt is a chain: pace, resolve the broker's name, open a stream
//! socket, negotiate the encrypted session, connect to the broker, subscribe,
//! receive. A failure anywhere but in the encrypted session releases whatever
//! the attempt holds and starts the chain from its first step. A failure of
//! the encrypted session stops the orchestrator for good.
use vstd::prelude::*;
use crate::config::Config;
use crate::disposition::Disposition;
use crate::limits::{
    ATTEMPT_PACING_MS, BUFFER_CAPACITY, MAX_PACKET_SIZE, READINESS_POLL_MS, RECEIVE_PACING_MS,
    SOCKET_IDLE_TIMEOUT_MS,
};
use crate::reason::{ReasonClass, ReasonCode};
use crate::topics::TopicSet;
use smoltcp::wire::IpAddress;

verus! {

/// `smoltcp::wire::IpAddress`: an address is carried from the resolution to
/// the socket and never looked into.
#[verifier::external_type_specification]
#[verifier::external_body]
pub struct ExIpAddress(IpAddress);

/// Protocol versions of the encrypted session.
#[derive(Debug, Clone, Copy, PartialEq, Eq, Structural)]
pub enum TlsVersion {
    Tls1_2,
    Tls1_3,
}

/// Quality of service of a subscription.
#[derive(Debug, Clone, Copy, PartialEq, Eq, Structural)]
pub enum QualityOfService {
    AtMostOnce,
    AtLeastOnce,
    ExactlyOnce,
}

/// Where the broker is: its name, the address that the name resolved to for
/// this attempt, and its port.
#[derive(Debug, Clone, Copy, PartialEq, Eq)]
pub struct BrokerEndpoint<'a> {
    pub host: &'a str,
    pub address: IpAddress,
    pub port: u16,
}

/// Why the orchestrator stopped.
#[derive(Debug, Clone, Copy, PartialEq, Eq, Structural)]
pub enum Fault {
    /// The encrypted session could not be set up.
    SecureSessionSetup,
    /// The handshake of the encrypted session failed.
    SecureSessionHandshake,
}

/// What the receive loop does when the session reports a network error.
#[derive(Debug, Clone, Copy, PartialEq, Eq, Structural)]
pub enum LossPolicy {
    /// Stay in the receive loop and try to receive again after the usual
    /// delay.
    KeepSession,
    /// Give the session up and start a new attempt.
    Reconnect,
}

/// The resources that the current attempt holds.
#[derive(Debug, Clone, Copy, PartialEq, Eq, Structural)]
pub struct Held {
    pub sockets: u8,
    pub secure_sessions: u8,
    pub application_sessions: u8,
}

/// Where the orchestrator stands. Each phase waits for one action of the
/// driver, named by [`Model::action`].
#[derive(Debug, Clone, Copy, PartialEq, Eq)]
pub enum Phase {
    /// Waiting for the link to come up; `pausing` between two looks.
    AwaitingLink { pausing: bool },
    /// The link is up; waiting for an address; `pausing` between two looks.
    AwaitingAddress { pausing: bool },
    /// In front of an attempt.
    Pacing,
    /// The broker's name is being resolved.
    Resolving,
    /// A stream socket to `address` is being opened.
    Connecting { address: IpAddress },
    /// The encrypted session is being negotiated.
    Securing,
    /// The client is connecting to the broker.
    Authenticating,
    /// The topics are being subscribed to.
    Subscribing,
    /// Waiting for a message.
    Receiving,
    /// Between two turns of the receive loop.
    Resting,
    /// The attempt is over; what it holds is being released.
    Releasing,
    /// Stopped for good.
    Halted { fault: Fault },
}

/// What the driver reports back.
#[derive(Debug, Clone, Copy, PartialEq, Eq)]
pub enum Event {
    /// The link was looked at.
    LinkPolled { up: bool },
    /// The stack was asked for its address.
    AddressPolled { assigned: bool },
    /// The delay is over.
    DelayElapsed,
    /// The broker's name resolved to `address`.
    HostResolved { address: IpAddress },
    /// The broker's name did not resolve.
    ResolveFailed,
    /// The socket is connected.
    SocketConnected,
    /// The socket did not connect.
    SocketFailed,
    /// The encrypted session stands.
    SecureSessionReady,
    /// The encrypted session could not be set up.
    SecureSessionSetupFailed,
    /// The handshake of the encrypted session failed.
    SecureSessionHandshakeFailed,
    /// The broker accepted the client.
    BrokerAccepted,
    /// Connecting to the broker failed.
    BrokerRefused { reason: ReasonCode },
    /// The subscription was granted.
    Subscribed,
    /// The subscription failed.
    SubscribeFailed { reason: ReasonCode },
    /// A message arrived.
    MessageReceived,
    /// Receiving failed.
    ReceiveFailed { reason: ReasonCode },
    /// Sessions and socket of the attempt are gone.
    Released,
}

/// What the driver is to do next.
#[derive(Clone, Copy, PartialEq, Eq)]
pub enum Action<'a> {
    /// Ask whether the link is up and report `LinkPolled`.
    PollLink,
    /// Ask whether an address is assigned and report `AddressPolled`.
    PollAddress,
    /// Sleep for `millis` milliseconds and report `DelayElapsed`.
    Wait { millis: u64 },
    /// Resolve `host` and report `HostResolved` or `ResolveFailed`.
    ResolveHost { host: &'a str },
    /// Open a stream socket to the address and the port in `endpoint`, with send and
    /// receive buffers of `buffer_capacity` bytes each, that gives up after
    /// `idle_timeout_ms` idle milliseconds, and report `SocketConnected` or
    /// `SocketFailed`.
    OpenSocket { endpoint: BrokerEndpoint<'a>, idle_timeout_ms: u64, buffer_capacity: usize },
    /// Negotiate an encrypted session with `server_name` over the socket, at
    /// `min_version` or above, and report `SecureSessionReady` or one of the
    /// two failures.
    NegotiateTls { server_name: &'a str, min_version: TlsVersion },
    /// Make a client with client identifier, user name and password of
    /// `config`, with buffers of `buffer_capacity` bytes, and connect it to the
    /// broker; report `BrokerAccepted` or `BrokerRefused`.
    ConnectBroker {
        config: &'a Config<'a>,
        max_subscribe_qos: QualityOfService,
        max_packet_size: u32,
        buffer_capacity: usize,
    },
    /// Subscribe to `topics` and report `Subscribed` or `SubscribeFailed`.
    Subscribe { topics: &'a TopicSet },
    /// Wait for one message and report `MessageReceived` or `ReceiveFailed`.
    Receive,
    /// Drop the client and the encrypted session, close the socket, and
    /// report `Released`.
    Release,
    /// Stop: nothing more will be tried.
    Halt { fault: Fault },
}

impl Held {
    /// No socket and no session.
    pub open spec fn nothing() -> Held {
        Held { sockets: 0, secure_sessions: 0, application_sessions: 0 }
    }

    /// At most one of each, and no session without what it runs on.
    pub open spec fn layered(self) -> bool {
        self.application_sessions <= self.secure_sessions <= self.sockets <= 1
    }
}

/// The orchestrator as a value: its phase, what the attempt holds, and the
/// policy it was made with.
#[derive(Debug, Clone, Copy, PartialEq, Eq)]
pub struct Model {
    pub phase: Phase,
    pub held: Held,
    pub policy: LossPolicy,
}

impl Model {
    /// The orchestrator before anything happened.
    pub open spec fn initial(policy: LossPolicy) -> Model {
        Model { phase: Phase::AwaitingLink { pausing: false }, held: Held::nothing(), policy }
    }

    /// The orchestrator in front of an attempt, holding nothing.
    pub open spec fn fresh(policy: LossPolicy) -> Model {
        Model { phase: Phase::Pacing, held: Held::nothing(), policy }
    }

    /// What is held fits the phase: nothing before the socket is open, the
    /// socket alone while the encrypted session is negotiated, socket and
    /// encrypted session while the client connects, all three from then on.
    pub open spec fn wf(self) -> bool {
        match self.phase {
            Phase::Securing => self.held == (Held {
                sockets: 1,
                secure_sessions: 0,
                application_sessions: 0,
            }),
            Phase::Authenticating => self.held == (Held {
                sockets: 1,
                secure_sessions: 1,
                application_sessions: 0,
            }),
            Phase::Subscribing | Phase::Receiving | Phase::Resting => self.held == (Held {
                sockets: 1,
                secure_sessions: 1,
                application_sessions: 1,
            }),
            Phase::Releasing => self.held.layered(),
            Phase::Halted { .. } => self.held == (Held {
                sockets: 1,
                secure_sessions: 0,
                application_sessions: 0,
            }),
            _ => self.held == Held::nothing(),
        }
    }

    /// Link and address were both seen: attempts are under way.
    pub open spec fn ready(self) -> bool {
        !(self.phase is AwaitingLink) && !(self.phase is AwaitingAddress)
    }

    /// The action that the orchestrator waits for.
    pub open spec fn action<'a>(self, config: &'a Config<'a>, topics: &'a TopicSet) -> Action<'a> {
        match self.phase {
            Phase::AwaitingLink { pausing } => if pausing {
                Action::Wait { millis: READINESS_POLL_MS }
            } else {
                Action::PollLink
            },
            Phase::AwaitingAddress { pausing } => if pausing {
                Action::Wait { millis: READINESS_POLL_MS }
            } else {
                Action::PollAddress
            },
            Phase::Pacing => Action::Wait { millis: ATTEMPT_PACING_MS },
            Phase::Resolving => Action::ResolveHost { host: config.host_text() },
            Phase::Connecting { address } => Action::OpenSocket {
                endpoint: BrokerEndpoint {
                    host: config.host_text(),
                    address,
                    port: config@.broker_port,
                },
                idle_timeout_ms: SOCKET_IDLE_TIMEOUT_MS,
                buffer_capacity: BUFFER_CAPACITY,
            },
            Phase::Securing => Action::NegotiateTls {
                server_name: config.host_text(),
                min_version: TlsVersion::Tls1_2,
            },
            Phase::Authenticating => Action::ConnectBroker {
                config,
                max_subscribe_qos: QualityOfService::ExactlyOnce,
                max_packet_size: MAX_PACKET_SIZE,
                buffer_capacity: BUFFER_CAPACITY,
            },
            Phase::Subscribing => Action::Subscribe { topics },
            Phase::Receiving => Action::Receive,
            Phase::Resting => Action::Wait { millis: RECEIVE_PACING_MS },
            Phase::Releasing => Action::Release,
            Phase::Halted { fault } => Action::Halt { fault },
        }
    }

    /// Whether `event` reports the outcome of the pending action.
    pub open spec fn answers(self, event: Event) -> bool {
        match (self.phase, event) {
            (Phase::AwaitingLink { pausing: false }, Event::LinkPolled { .. }) => true,
            (Phase::AwaitingLink { pausing: true }, Event::DelayElapsed) => true,
            (Phase::AwaitingAddress { pausing: false }, Event::AddressPolled { .. }) => true,
            (Phase::AwaitingAddress { pausing: true }, Event::DelayElapsed) => true,
            (Phase::Pacing, Event::DelayElapsed) => true,
            (Phase::Resolving, Event::HostResolved { .. }) => true,
            (Phase::Resolving, Event::ResolveFailed) => true,
            (Phase::Connecting { .. }, Event::SocketConnected) => true,
            (Phase::Connecting { .. }, Event::SocketFailed) => true,
            (Phase::Securing, Event::SecureSessionReady) => true,
            (Phase::Securing, Event::SecureSessionSetupFailed) => true,
            (Phase::Securing, Event::SecureSessionHandshakeFailed) => true,
            (Phase::Authenticating, Event::BrokerAccepted) => true,
            (Phase::Authenticating, Event::BrokerRefused { .. }) => true,
            (Phase::Subscribing, Event::Subscribed) => true,
            (Phase::Subscribing, Event::SubscribeFailed { .. }) => true,
            (Phase::Receiving, Event::MessageReceived) => true,
            (Phase::Receiving, Event::ReceiveFailed { .. }) => true,
            (Phase::Resting, Event::DelayElapsed) => true,
            (Phase::Releasing, Event::Released) => true,
            _ => false,
        }
    }

    /// The phase after `event`. An event that does not answer the pending
    /// action changes nothing.
    pub open spec fn next_phase(self, event: Event) -> Phase {
        match (self.phase, event) {
            (Phase::AwaitingLink { pausing: false }, Event::LinkPolled { up }) => if up {
                Phase::AwaitingAddress { pausing: false }
            } else {
                Phase::AwaitingLink { pausing: true }
            },
            (Phase::AwaitingLink { pausing: true }, Event::DelayElapsed) => Phase::AwaitingLink {
                pausing: false,
            },
            (Phase::AwaitingAddress { pausing: false }, Event::AddressPolled { assigned }) => if assigned {
                Phase::Pacing
            } else {
                Phase::AwaitingAddress { pausing: true }
            },
            (
                Phase::AwaitingAddress { pausing: true },
                Event::DelayElapsed,
            ) => Phase::AwaitingAddress { pausing: false },
            (Phase::Pacing, Event::DelayElapsed) => Phase::Resolving,
            (Phase::Resolving, Event::HostResolved { address }) => Phase::Connecting { address },
            (Phase::Resolving, Event::ResolveFailed) => Phase::Releasing,
            (Phase::Connecting { .. }, Event::SocketConnected) => Phase::Securing,
            (Phase::Connecting { .. }, Event::SocketFailed) => Phase::Releasing,
            (Phase::Securing, Event::SecureSessionReady) => Phase::Authenticating,
            (Phase::Securing, Event::SecureSessionSetupFailed) => Phase::Halted {
                fault: Fault::SecureSessionSetup,
            },
            (Phase::Securing, Event::SecureSessionHandshakeFailed) => Phase::Halted {
                fault: Fault::SecureSessionHandshake,
            },
            (Phase::Authenticating, Event::BrokerAccepted) => Phase::Subscribing,
            (Phase::Authenticating, Event::BrokerRefused { .. }) => Phase::Releasing,
            (Phase::Subscribing, Event::Subscribed) => Phase::Receiving,
            (Phase::Subscribing, Event::SubscribeFailed { .. }) => Phase::Receiving,
            (Phase::Receiving, Event::MessageReceived) => Phase::Resting,
            (Phase::Receiving, Event::ReceiveFailed { reason }) => if self.policy
                == LossPolicy::Reconnect && reason.class() == ReasonClass::Network {
                Phase::Releasing
            } else {
                Phase::Resting
            },
            (Phase::Resting, Event::DelayElapsed) => Phase::Receiving,
            (Phase::Releasing, Event::Released) => Phase::Pacing,
            _ => self.phase,
        }
    }

    /// What is held after `event`: opening the socket adds the socket,
    /// whether or not it connected; an encrypted session that stands adds
    /// itself; connecting to the broker adds the client, whether or not the
    /// broker accepted it; a release leaves nothing.
    pub open spec fn next_held(self, event: Event) -> Held {
        match (self.phase, event) {
            (Phase::Connecting { .. }, Event::SocketConnected) | (
                Phase::Connecting { .. },
                Event::SocketFailed,
            ) => Held { sockets: (self.held.sockets + 1) as u8, ..self.held },
            (Phase::Securing, Event::SecureSessionReady) => Held {
                secure_sessions: (self.held.secure_sessions + 1) as u8,
                ..self.held
            },
            (Phase::Authenticating, Event::BrokerAccepted) | (
                Phase::Authenticating,
                Event::BrokerRefused { .. },
            ) => Held {
                application_sessions: (self.held.application_sessions + 1) as u8,
                ..self.held
            },
            (Phase::Releasing, Event::Released) => Held::nothing(),
            _ => self.held,
        }
    }

    /// The orchestrator after `event`.
    pub open spec fn after(self, event: Event) -> Model {
        Model {
            phase: self.next_phase(event),
            held: self.next_held(event),
            policy: self.policy,
        }
    }

    /// What `event` means to the orchestrator.
    pub open spec fn disposition(self, event: Event) -> Disposition {
        if !self.answers(event) {
            Disposition::Ignored
        } else {
            match event {
                Event::ResolveFailed | Event::SocketFailed => Disposition::Transient,
                Event::BrokerRefused { reason } | Event::ReceiveFailed { reason } => if reason.class()
                    == ReasonClass::Network {
                    Disposition::Transient
                } else {
                    Disposition::Unclassified
                },
                Event::SubscribeFailed { .. } => Disposition::Degraded,
                Event::SecureSessionSetupFailed
                | Event::SecureSessionHandshakeFailed => Disposition::Fatal,
                _ => Disposition::Progress,
            }
        }
    }

    /// The orchestrator after each event of `events` in turn.
    pub open spec fn run(self, events: Seq<Event>) -> Model
        decreases events.len(),
    {
        if events.len() == 0 {
            self
        } else {
            self.run(events.drop_last()).after(events.last())
        }
    }
}

/// The event that a name resolution amounts to: the first address where
/// there is one, a failure where the list is empty.
pub fn resolution(addresses: &[IpAddress]) -> (event: Event)
    ensures
        addresses@.len() > 0 ==> event == (Event::HostResolved { address: addresses@[0] }),
        addresses@.len() == 0 ==> event == Event::ResolveFailed,
{
    if addresses.len() > 0 {
        Event::HostResolved { address: addresses[0] }
    } else {
        Event::ResolveFailed
    }
}

/// The connection orchestrator.
pub struct Orchestrator<'a> {
    config: &'a Config<'a>,
    topics: &'a TopicSet,
    state: Model,
}

impl<'a> View for Orchestrator<'a> {
    type V = Model;

    closed spec fn view(&self) -> Model {
        self.state
    }
}

impl<'a> Orchestrator<'a> {
    #[verifier::type_invariant]
    spec fn inv(self) -> bool {
        self.state.wf()
    }

    /// The configuration that the orchestrator was made with.
    pub closed spec fn configured(self) -> &'a Config<'a> {
        self.config
    }

    /// The topics that the orchestrator was made with.
    pub closed spec fn subscribed(self) -> &'a TopicSet {
        self.topics
    }

    /// An orchestrator that has yet to see the link.
    pub fn new(config: &'a Config<'a>, topics: &'a TopicSet, policy: LossPolicy) -> (orchestrator:
        Orchestrator<'a>)
        ensures
            orchestrator@ == Model::initial(policy),
            orchestrator.configured() == config,
            orchestrator.subscribed() == topics,
    {
        Orchestrator {
            config,
            topics,
            state: Model {
                phase: Phase::AwaitingLink { pausing: false },
                held: Held { sockets: 0, secure_sessions: 0, application_sessions: 0 },
                policy,
            },
        }
    }

    /// The configuration that the orchestrator was made with.
    pub fn config(&self) -> (config: &'a Config<'a>)
        ensures
            config == self.configured(),
    {
        self.config
    }

    /// The topics that the orchestrator was made with.
    pub fn topics(&self) -> (topics: &'a TopicSet)
        ensures
            topics == self.subscribed(),
    {
        self.topics
    }

    /// Phase, holdings and policy; the holdings always fit the phase.
    pub fn model(&self) -> (model: Model)
        ensures
            model == self@,
            model.wf(),
    {
        proof {
            use_type_invariant(self);
        }
        self.state
    }

    /// Where the orchestrator stands.
    pub fn phase(&self) -> (phase: Phase)
        ensures
            phase == self@.phase,
    {
        self.state.phase
    }

    /// What the current attempt holds: never more than one socket, one
    /// encrypted session and one client, and no session without what it runs
    /// on.
    pub fn held(&self) -> (held: Held)
        ensures
            held == self@.held,
            held.layered(),
    {
        proof {
            use_type_invariant(self);
        }
        self.state.held
    }

    /// The policy that the orchestrator was made with.
    pub fn policy(&self) -> (policy: LossPolicy)
        ensures
            policy == self@.policy,
    {
        self.state.policy
    }

    /// Whether link and address were both seen.
    pub fn is_ready(&self) -> (ready: bool)
        ensures
            ready == self@.ready(),
    {
        match self.state.phase {
            Phase::AwaitingLink { .. } => false,
            Phase::AwaitingAddress { .. } => false,
            _ => true,
        }
    }

    /// Whether the orchestrator has stopped for good.
    pub fn has_halted(&self) -> (halted: bool)
        ensures
            halted == (self@.phase is Halted),
    {
        match self.state.phase {
            Phase::Halted { .. } => true,
            _ => false,
        }
    }

    /// The action that the driver is to perform now.
    pub fn action(&self) -> (action: Action<'a>)
        ensures
            action == self@.action(self.configured(), self.subscribed()),
    {
        match self.state.phase {
            Phase::AwaitingLink { pausing } => {
                if pausing {
                    Action::Wait { millis: READINESS_POLL_MS }
                } else {
                    Action::PollLink
                }
            },
            Phase::AwaitingAddress { pausing } => {
                if pausing {
                    Action::Wait { millis: READINESS_POLL_MS }
                } else {
                    Action::PollAddress
                }
            },
            Phase::Pacing => Action::Wait { millis: ATTEMPT_PACING_MS },
            Phase::Resolving => Action::ResolveHost { host: self.config.broker_host() },
            Phase::Connecting { address } => Action::OpenSocket {
                endpoint: BrokerEndpoint {
                    host: self.config.broker_host(),
                    address,
                    port: self.config.broker_port(),
                },
                idle_timeout_ms: SOCKET_IDLE_TIMEOUT_MS,
                buffer_capacity: BUFFER_CAPACITY,
            },
            Phase::Securing => Action::NegotiateTls {
                server_name: self.config.broker_host(),
                min_version: TlsVersion::Tls1_2,
            },
            Phase::Authenticating => Action::ConnectBroker {
                config: self.config,
                max_subscribe_qos: QualityOfService::ExactlyOnce,
                max_packet_size: MAX_PACKET_SIZE,
                buffer_capacity: BUFFER_CAPACITY,
            },
            Phase::Subscribing => Action::Subscribe { topics: self.topics },
            Phase::Receiving => Action::Receive,
            Phase::Resting => Action::Wait { millis: RECEIVE_PACING_MS },
            Phase::Releasing => Action::Release,
            Phase::Halted { fault } => Action::Halt { fault },
        }
    }

    /// Takes the outcome of the pending action and moves on. An event that
    /// does not answer the pending action is ignored.
    pub fn on_event(&mut self, event: Event) -> (disposition: Disposition)
        ensures
            final(self)@ == old(self)@.after(event),
            final(self).configured() == old(self).configured(),
            final(self).subscribed() == old(self).subscribed(),
            disposition == old(self)@.disposition(event),
    {
        proof {
            use_type_invariant(&*self);
        }
        let held = self.state.held;
        let policy = self.state.policy;
        let nothing = Held { sockets: 0, secure_sessions: 0, application_sessions: 0 };
        let (phase, held, disposition) = match (self.state.phase, event) {
            (Phase::AwaitingLink { pausing: false }, Event::LinkPolled { up }) => {
                if up {
                    (Phase::AwaitingAddress { pausing: false }, held, Disposition::Progress)
                } else {
                    (Phase::AwaitingLink { pausing: true }, held, Disposition::Progress)
                }
            },
            (Phase::AwaitingLink { pausing: true }, Event::DelayElapsed) => {
                (Phase::AwaitingLink { pausing: false }, held, Disposition::Progress)
            },
            (Phase::AwaitingAddress { pausing: false }, Event::AddressPolled { assigned }) => {
                if assigned {
                    (Phase::Pacing, held, Disposition::Progress)
                } else {
                    (Phase::AwaitingAddress { pausing: true }, held, Disposition::Progress)
                }
            },
            (Phase::AwaitingAddress { pausing: true }, Event::DelayElapsed) => {
                (Phase::AwaitingAddress { pausing: false }, held, Disposition::Progress)
            },
            (Phase::Pacing, Event::DelayElapsed) => (Phase::Resolving, held, Disposition::Progress),
            (Phase::Resolving, Event::HostResolved { address }) => {
                (Phase::Connecting { address }, held, Disposition::Progress)
            },
            (Phase::Resolving, Event::ResolveFailed) => {
                (Phase::Releasing, held, Disposition::Transient)
            },
            (Phase::Connecting { .. }, Event::SocketConnected) => {
                (Phase::Securing, Held { sockets: held.sockets + 1, ..held }, Disposition::Progress)
            },
            (Phase::Connecting { .. }, Event::SocketFailed) => {
                (
                    Phase::Releasing,
                    Held { sockets: held.sockets + 1, ..held },
                    Disposition::Transient,
                )
            },
            (Phase::Securing, Event::SecureSessionReady) => {
                (
                    Phase::Authenticating,
                    Held { secure_sessions: held.secure_sessions + 1, ..held },
                    Disposition::Progress,
                )
            },
            (Phase::Securing, Event::SecureSessionSetupFailed) => {
                (Phase::Halted { fault: Fault::SecureSessionSetup }, held, Disposition::Fatal)
            },
            (Phase::Securing, Event::SecureSessionHandshakeFailed) => {
                (Phase::Halted { fault: Fault::SecureSessionHandshake }, held, Disposition::Fatal)
            },
            (Phase::Authenticating, Event::BrokerAccepted) => {
                (
                    Phase::Subscribing,
                    Held { application_sessions: held.application_sessions + 1, ..held },
                    Disposition::Progress,
                )
            },
            (Phase::Authenticating, Event::BrokerRefused { reason }) => {
                (
                    Phase::Releasing,
                    Held { application_sessions: held.application_sessions + 1, ..held },
                    if reason.is_network_error() {
                        Disposition::Transient
                    } else {
                        Disposition::Unclassified
                    },
                )
            },
            (Phase::Subscribing, Event::Subscribed) => {
                (Phase::Receiving, held, Disposition::Progress)
            },
            (Phase::Subscribing, Event::SubscribeFailed { .. }) => {
                (Phase::Receiving, held, Disposition::Degraded)
            },
            (Phase::Receiving, Event::MessageReceived) => {
                (Phase::Resting, held, Disposition::Progress)
            },
            (Phase::Receiving, Event::ReceiveFailed { reason }) => {
                if reason.is_network_error() {
                    match policy {
                        LossPolicy::Reconnect => (Phase::Releasing, held, Disposition::Transient),
                        LossPolicy::KeepSession => (Phase::Resting, held, Disposition::Transient),
                    }
                } else {
                    (Phase::Resting, held, Disposition::Unclassified)
                }
            },
            (Phase::Resting, Event::DelayElapsed) => (Phase::Receiving, held, Disposition::Progress),
            (Phase::Releasing, Event::Released) => (Phase::Pacing, nothing, Disposition::Progress),
            (phase, _) => (phase, held, Disposition::Ignored),
        };
        self.state = Model { phase, held, policy };
        disposition
    }
}

} // verus!
