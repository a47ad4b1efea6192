use conn_lifecycle::config::Config;
use conn_lifecycle::disposition::Disposition;
use conn_lifecycle::orchestrator::{
    resolution, Action, BrokerEndpoint, Event, Fault, Held, LossPolicy, Model, Orchestrator,
    Phase, QualityOfService, TlsVersion,
};
use conn_lifecycle::reason::ReasonCode;
use conn_lifecycle::topics::TopicSet;
use smoltcp::wire::IpAddress;

fn sample_config() -> Config<'static> {
    match Config::new("home", "secret", "broker.example", "8883", "device-1", "user", "pass") {
        Ok(config) => config,
        Err(_) => panic!("a sound configuration was refused"),
    }
}

fn sample_topics() -> TopicSet {
    let mut topics = TopicSet::new();
    assert_eq!(topics.add("topicfeed"), Ok(()));
    topics
}

fn broker() -> IpAddress {
    IpAddress::v4(192, 168, 1, 20)
}

const NOTHING: Held = Held { sockets: 0, secure_sessions: 0, application_sessions: 0 };
const SOCKET: Held = Held { sockets: 1, secure_sessions: 0, application_sessions: 0 };
const SECURED: Held = Held { sockets: 1, secure_sessions: 1, application_sessions: 0 };
const SESSION: Held = Held { sockets: 1, secure_sessions: 1, application_sessions: 1 };

/// Link up, address assigned: the orchestrator stands in front of its first attempt.
fn make_ready(orchestrator: &mut Orchestrator) {
    orchestrator.on_event(Event::LinkPolled { up: true });
    orchestrator.on_event(Event::AddressPolled { assigned: true });
    assert_eq!(orchestrator.phase(), Phase::Pacing);
}

/// From in front of an attempt to a connected socket.
fn open_socket(orchestrator: &mut Orchestrator) {
    orchestrator.on_event(Event::DelayElapsed);
    orchestrator.on_event(Event::HostResolved { address: broker() });
    orchestrator.on_event(Event::SocketConnected);
    assert_eq!(orchestrator.phase(), Phase::Securing);
}

/// From in front of an attempt to the receive loop.
fn enter_receive_loop(orchestrator: &mut Orchestrator) {
    open_socket(orchestrator);
    orchestrator.on_event(Event::SecureSessionReady);
    orchestrator.on_event(Event::BrokerAccepted);
    orchestrator.on_event(Event::Subscribed);
    assert_eq!(orchestrator.phase(), Phase::Receiving);
}

/// Walks the chain from the pacing delay to the connection to the broker and
/// checks every action on the way.
fn expect_whole_chain(orchestrator: &mut Orchestrator, config: &Config) {
    assert!(orchestrator.action() == Action::Wait { millis: 1_000 });
    assert_eq!(orchestrator.held(), NOTHING);
    assert_eq!(orchestrator.on_event(Event::DelayElapsed), Disposition::Progress);
    assert!(orchestrator.action() == Action::ResolveHost { host: "broker.example" });
    assert_eq!(
        orchestrator.on_event(Event::HostResolved { address: broker() }),
        Disposition::Progress
    );
    assert!(
        orchestrator.action()
            == Action::OpenSocket {
                endpoint: BrokerEndpoint {
                    host: "broker.example",
                    address: broker(),
                    port: 8883
                },
                idle_timeout_ms: 10_000,
                buffer_capacity: 4096
            }
    );
    assert_eq!(orchestrator.on_event(Event::SocketConnected), Disposition::Progress);
    assert!(
        orchestrator.action()
            == Action::NegotiateTls {
                server_name: "broker.example",
                min_version: TlsVersion::Tls1_2
            }
    );
    assert_eq!(orchestrator.on_event(Event::SecureSessionReady), Disposition::Progress);
    assert!(
        orchestrator.action()
            == Action::ConnectBroker {
                config,
                max_subscribe_qos: QualityOfService::ExactlyOnce,
                max_packet_size: 4096,
                buffer_capacity: 4096
            }
    );
}

#[test]
fn orchestrator_starts_by_polling_the_link() {
    let config = sample_config();
    let topics = sample_topics();
    let orchestrator = Orchestrator::new(&config, &topics, LossPolicy::Reconnect);
    assert_eq!(orchestrator.phase(), Phase::AwaitingLink { pausing: false });
    assert!(orchestrator.action() == Action::PollLink);
    assert_eq!(orchestrator.held(), NOTHING);
    assert_eq!(orchestrator.policy(), LossPolicy::Reconnect);
    assert!(!orchestrator.is_ready());
    assert!(!orchestrator.has_halted());
    assert!(orchestrator.config() == &config);
    assert!(orchestrator.topics() == &topics);
    assert_eq!(
        orchestrator.model(),
        Model {
            phase: Phase::AwaitingLink { pausing: false },
            held: NOTHING,
            policy: LossPolicy::Reconnect
        }
    );
}

#[test]
fn orchestrator_link_never_comes_up() {
    let config = sample_config();
    let topics = sample_topics();
    let mut orchestrator = Orchestrator::new(&config, &topics, LossPolicy::KeepSession);
    for _ in 0..10_000 {
        assert!(orchestrator.action() == Action::PollLink);
        assert_eq!(orchestrator.on_event(Event::LinkPolled { up: false }), Disposition::Progress);
        assert_eq!(orchestrator.phase(), Phase::AwaitingLink { pausing: true });
        assert!(orchestrator.action() == Action::Wait { millis: 500 });
        assert_eq!(orchestrator.on_event(Event::DelayElapsed), Disposition::Progress);
        assert_eq!(orchestrator.phase(), Phase::AwaitingLink { pausing: false });
        assert!(!orchestrator.is_ready());
        assert_eq!(orchestrator.held(), NOTHING);
    }
}

#[test]
fn orchestrator_waits_for_the_address_after_the_link() {
    let config = sample_config();
    let topics = sample_topics();
    let mut orchestrator = Orchestrator::new(&config, &topics, LossPolicy::KeepSession);
    // an address report is no answer while the link is awaited
    assert_eq!(orchestrator.on_event(Event::AddressPolled { assigned: true }), Disposition::Ignored);
    assert_eq!(orchestrator.phase(), Phase::AwaitingLink { pausing: false });

    assert_eq!(orchestrator.on_event(Event::LinkPolled { up: true }), Disposition::Progress);
    assert_eq!(orchestrator.phase(), Phase::AwaitingAddress { pausing: false });
    assert!(orchestrator.action() == Action::PollAddress);
    for _ in 0..50 {
        assert_eq!(
            orchestrator.on_event(Event::AddressPolled { assigned: false }),
            Disposition::Progress
        );
        assert_eq!(orchestrator.phase(), Phase::AwaitingAddress { pausing: true });
        assert!(orchestrator.action() == Action::Wait { millis: 500 });
        assert_eq!(orchestrator.on_event(Event::DelayElapsed), Disposition::Progress);
        assert!(orchestrator.action() == Action::PollAddress);
        assert!(!orchestrator.is_ready());
    }
    assert_eq!(orchestrator.on_event(Event::AddressPolled { assigned: true }), Disposition::Progress);
    assert_eq!(orchestrator.phase(), Phase::Pacing);
    assert!(orchestrator.is_ready());
    assert!(orchestrator.action() == Action::Wait { millis: 1_000 });
}

#[test]
fn orchestrator_successful_attempt_reaches_the_receive_loop() {
    let config = sample_config();
    let topics = sample_topics();
    let mut orchestrator = Orchestrator::new(&config, &topics, LossPolicy::KeepSession);
    make_ready(&mut orchestrator);
    expect_whole_chain(&mut orchestrator, &config);
    assert_eq!(orchestrator.held(), SECURED);
    assert_eq!(orchestrator.on_event(Event::BrokerAccepted), Disposition::Progress);
    assert_eq!(orchestrator.phase(), Phase::Subscribing);
    assert_eq!(orchestrator.held(), SESSION);
    assert!(orchestrator.action() == Action::Subscribe { topics: &topics });
    match orchestrator.action() {
        Action::Subscribe { topics } => {
            assert_eq!(topics.as_list().as_slice(), ["topicfeed"]);
        },
        _ => panic!("the topics were not to be subscribed to"),
    }
    assert_eq!(orchestrator.on_event(Event::Subscribed), Disposition::Progress);
    assert_eq!(orchestrator.phase(), Phase::Receiving);
    assert!(orchestrator.action() == Action::Receive);
}

#[test]
fn orchestrator_dns_error_abandons_the_attempt() {
    let config = sample_config();
    let topics = sample_topics();
    let mut orchestrator = Orchestrator::new(&config, &topics, LossPolicy::KeepSession);
    make_ready(&mut orchestrator);
    orchestrator.on_event(Event::DelayElapsed);
    assert!(orchestrator.action() == Action::ResolveHost { host: "broker.example" });

    assert_eq!(orchestrator.on_event(Event::ResolveFailed), Disposition::Transient);
    assert!(!orchestrator.has_halted());
    assert_eq!(orchestrator.phase(), Phase::Releasing);
    assert!(orchestrator.action() == Action::Release);
    assert_eq!(orchestrator.on_event(Event::Released), Disposition::Progress);
    assert_eq!(orchestrator.phase(), Phase::Pacing);
    assert!(orchestrator.action() == Action::Wait { millis: 1_000 });
    assert_eq!(orchestrator.on_event(Event::DelayElapsed), Disposition::Progress);
    assert!(orchestrator.action() == Action::ResolveHost { host: "broker.example" });
    assert!(!orchestrator.has_halted());
}

#[test]
fn orchestrator_socket_failure_abandons_the_attempt() {
    let config = sample_config();
    let topics = sample_topics();
    let mut orchestrator = Orchestrator::new(&config, &topics, LossPolicy::KeepSession);
    make_ready(&mut orchestrator);
    orchestrator.on_event(Event::DelayElapsed);
    orchestrator.on_event(Event::HostResolved { address: broker() });
    assert_eq!(orchestrator.phase(), Phase::Connecting { address: broker() });
    assert_eq!(orchestrator.on_event(Event::SocketFailed), Disposition::Transient);
    assert_eq!(orchestrator.phase(), Phase::Releasing);
    assert_eq!(orchestrator.held(), SOCKET);
    orchestrator.on_event(Event::Released);
    assert_eq!(orchestrator.held(), NOTHING);
    expect_whole_chain(&mut orchestrator, &config);
}

#[test]
fn orchestrator_network_error_on_connect_abandons_the_attempt() {
    let config = sample_config();
    let topics = sample_topics();
    let mut orchestrator = Orchestrator::new(&config, &topics, LossPolicy::KeepSession);
    make_ready(&mut orchestrator);
    open_socket(&mut orchestrator);
    orchestrator.on_event(Event::SecureSessionReady);
    assert_eq!(orchestrator.phase(), Phase::Authenticating);

    let refused = Event::BrokerRefused { reason: ReasonCode::new(0xFF) };
    assert_eq!(orchestrator.on_event(refused), Disposition::Transient);
    assert_eq!(orchestrator.phase(), Phase::Releasing);
    assert!(orchestrator.action() == Action::Release);
    // neither a subscription nor a message is taken for an answer
    assert_eq!(orchestrator.on_event(Event::Subscribed), Disposition::Ignored);
    assert_eq!(orchestrator.on_event(Event::MessageReceived), Disposition::Ignored);
    assert_eq!(orchestrator.phase(), Phase::Releasing);
    assert_eq!(orchestrator.held(), SESSION);

    assert_eq!(orchestrator.on_event(Event::Released), Disposition::Progress);
    expect_whole_chain(&mut orchestrator, &config);
}

#[test]
fn orchestrator_other_reason_on_connect_abandons_the_attempt_too() {
    let config = sample_config();
    let topics = sample_topics();
    let mut orchestrator = Orchestrator::new(&config, &topics, LossPolicy::KeepSession);
    make_ready(&mut orchestrator);
    open_socket(&mut orchestrator);
    orchestrator.on_event(Event::SecureSessionReady);
    // 0x86: bad user name or password
    let refused = Event::BrokerRefused { reason: ReasonCode::new(0x86) };
    assert_eq!(orchestrator.on_event(refused), Disposition::Unclassified);
    assert_eq!(orchestrator.phase(), Phase::Releasing);
    assert!(!orchestrator.has_halted());
    orchestrator.on_event(Event::Released);
    expect_whole_chain(&mut orchestrator, &config);
}

#[test]
fn orchestrator_tls_setup_failure_is_fatal() {
    let config = sample_config();
    let topics = sample_topics();
    let mut orchestrator = Orchestrator::new(&config, &topics, LossPolicy::Reconnect);
    make_ready(&mut orchestrator);
    open_socket(&mut orchestrator);
    assert_eq!(orchestrator.on_event(Event::SecureSessionSetupFailed), Disposition::Fatal);
    assert!(orchestrator.has_halted());
    assert_eq!(orchestrator.phase(), Phase::Halted { fault: Fault::SecureSessionSetup });
    assert!(orchestrator.action() == Action::Halt { fault: Fault::SecureSessionSetup });
    // nothing brings it back
    let events = [
        Event::DelayElapsed,
        Event::Released,
        Event::SecureSessionReady,
        Event::LinkPolled { up: true },
        Event::HostResolved { address: broker() },
    ];
    for event in events {
        assert_eq!(orchestrator.on_event(event), Disposition::Ignored);
        assert!(orchestrator.action() == Action::Halt { fault: Fault::SecureSessionSetup });
    }
}

#[test]
fn orchestrator_tls_handshake_failure_is_fatal() {
    let config = sample_config();
    let topics = sample_topics();
    let mut orchestrator = Orchestrator::new(&config, &topics, LossPolicy::Reconnect);
    make_ready(&mut orchestrator);
    open_socket(&mut orchestrator);
    assert_eq!(orchestrator.on_event(Event::SecureSessionHandshakeFailed), Disposition::Fatal);
    assert!(orchestrator.has_halted());
    assert!(orchestrator.action() == Action::Halt { fault: Fault::SecureSessionHandshake });
}

#[test]
fn orchestrator_subscribe_failure_still_enters_the_receive_loop() {
    let config = sample_config();
    let topics = sample_topics();
    let mut orchestrator = Orchestrator::new(&config, &topics, LossPolicy::KeepSession);
    make_ready(&mut orchestrator);
    open_socket(&mut orchestrator);
    orchestrator.on_event(Event::SecureSessionReady);
    orchestrator.on_event(Event::BrokerAccepted);
    let failed = Event::SubscribeFailed { reason: ReasonCode::new(0x87) };
    assert_eq!(orchestrator.on_event(failed), Disposition::Degraded);
    assert_eq!(orchestrator.phase(), Phase::Receiving);
    assert!(orchestrator.action() == Action::Receive);
    assert_eq!(orchestrator.held(), SESSION);
}

#[test]
fn orchestrator_subscribe_network_error_still_enters_the_receive_loop() {
    let config = sample_config();
    let topics = sample_topics();
    let mut orchestrator = Orchestrator::new(&config, &topics, LossPolicy::Reconnect);
    make_ready(&mut orchestrator);
    open_socket(&mut orchestrator);
    orchestrator.on_event(Event::SecureSessionReady);
    orchestrator.on_event(Event::BrokerAccepted);
    let failed = Event::SubscribeFailed { reason: ReasonCode::new(0xFF) };
    assert_eq!(orchestrator.on_event(failed), Disposition::Degraded);
    assert!(orchestrator.action() == Action::Receive);
}

#[test]
fn orchestrator_receive_loop_rests_ten_seconds_after_every_turn() {
    let config = sample_config();
    let topics = sample_topics();
    let mut orchestrator = Orchestrator::new(&config, &topics, LossPolicy::KeepSession);
    make_ready(&mut orchestrator);
    enter_receive_loop(&mut orchestrator);
    let outcomes = [
        (Event::MessageReceived, Disposition::Progress),
        (Event::ReceiveFailed { reason: ReasonCode::new(0xFF) }, Disposition::Transient),
        (Event::ReceiveFailed { reason: ReasonCode::new(0xFE) }, Disposition::Unclassified),
        (Event::ReceiveFailed { reason: ReasonCode::new(0x80) }, Disposition::Unclassified),
        (Event::MessageReceived, Disposition::Progress),
    ];
    for (outcome, disposition) in outcomes {
        assert!(orchestrator.action() == Action::Receive);
        assert_eq!(orchestrator.on_event(outcome), disposition);
        assert_eq!(orchestrator.phase(), Phase::Resting);
        assert!(orchestrator.action() == Action::Wait { millis: 10_000 });
        assert_eq!(orchestrator.on_event(Event::DelayElapsed), Disposition::Progress);
        assert_eq!(orchestrator.phase(), Phase::Receiving);
        assert_eq!(orchestrator.held(), SESSION);
    }
}

#[test]
fn orchestrator_reconnects_after_a_network_error_when_told_to() {
    let config = sample_config();
    let topics = sample_topics();
    let mut orchestrator = Orchestrator::new(&config, &topics, LossPolicy::Reconnect);
    make_ready(&mut orchestrator);
    enter_receive_loop(&mut orchestrator);

    // another failure leaves the session alone
    let other = Event::ReceiveFailed { reason: ReasonCode::new(0x80) };
    assert_eq!(orchestrator.on_event(other), Disposition::Unclassified);
    assert_eq!(orchestrator.phase(), Phase::Resting);
    orchestrator.on_event(Event::DelayElapsed);

    let lost = Event::ReceiveFailed { reason: ReasonCode::new(0xFF) };
    assert_eq!(orchestrator.on_event(lost), Disposition::Transient);
    assert_eq!(orchestrator.phase(), Phase::Releasing);
    assert!(orchestrator.action() == Action::Release);
    assert_eq!(orchestrator.held(), SESSION);
    assert_eq!(orchestrator.on_event(Event::Released), Disposition::Progress);
    expect_whole_chain(&mut orchestrator, &config);
}

#[test]
fn orchestrator_ignores_what_does_not_answer() {
    let config = sample_config();
    let topics = sample_topics();
    let mut orchestrator = Orchestrator::new(&config, &topics, LossPolicy::KeepSession);
    make_ready(&mut orchestrator);
    orchestrator.on_event(Event::DelayElapsed);
    assert_eq!(orchestrator.phase(), Phase::Resolving);
    let strangers = [
        Event::LinkPolled { up: false },
        Event::AddressPolled { assigned: false },
        Event::DelayElapsed,
        Event::SocketConnected,
        Event::SocketFailed,
        Event::SecureSessionReady,
        Event::SecureSessionSetupFailed,
        Event::SecureSessionHandshakeFailed,
        Event::BrokerAccepted,
        Event::BrokerRefused { reason: ReasonCode::new(0xFF) },
        Event::Subscribed,
        Event::SubscribeFailed { reason: ReasonCode::new(0x80) },
        Event::MessageReceived,
        Event::ReceiveFailed { reason: ReasonCode::new(0xFF) },
        Event::Released,
    ];
    for event in strangers {
        assert_eq!(orchestrator.on_event(event), Disposition::Ignored);
        assert_eq!(orchestrator.phase(), Phase::Resolving);
        assert_eq!(orchestrator.held(), NOTHING);
    }
}

#[test]
fn orchestrator_resolution_takes_the_first_address() {
    let first = IpAddress::v4(10, 0, 0, 1);
    let second = IpAddress::v4(10, 0, 0, 2);
    assert_eq!(resolution(&[first, second]), Event::HostResolved { address: first });
    assert_eq!(resolution(&[second]), Event::HostResolved { address: second });
    assert_eq!(resolution(&[]), Event::ResolveFailed);
}

/// A driver that counts what it makes and what it drops.
struct Ledger {
    sockets: u32,
    secure_sessions: u32,
    application_sessions: u32,
}

impl Ledger {
    fn perform(&mut self, action: &Action, outcome_is_good: bool) -> Event {
        match action {
            Action::PollLink => Event::LinkPolled { up: outcome_is_good },
            Action::PollAddress => Event::AddressPolled { assigned: outcome_is_good },
            Action::Wait { .. } => Event::DelayElapsed,
            Action::ResolveHost { .. } => {
                if outcome_is_good {
                    Event::HostResolved { address: broker() }
                } else {
                    Event::ResolveFailed
                }
            },
            Action::OpenSocket { .. } => {
                self.sockets += 1;
                if outcome_is_good {
                    Event::SocketConnected
                } else {
                    Event::SocketFailed
                }
            },
            Action::NegotiateTls { .. } => {
                // in this harness the encrypted session always stands
                self.secure_sessions += 1;
                Event::SecureSessionReady
            },
            Action::ConnectBroker { .. } => {
                self.application_sessions += 1;
                if outcome_is_good {
                    Event::BrokerAccepted
                } else {
                    Event::BrokerRefused { reason: ReasonCode::new(0x88) }
                }
            },
            Action::Subscribe { .. } => {
                if outcome_is_good {
                    Event::Subscribed
                } else {
                    Event::SubscribeFailed { reason: ReasonCode::new(0x80) }
                }
            },
            Action::Receive => {
                if outcome_is_good {
                    Event::MessageReceived
                } else {
                    Event::ReceiveFailed { reason: ReasonCode::new(0xFF) }
                }
            },
            Action::Release => {
                self.sockets = 0;
                self.secure_sessions = 0;
                self.application_sessions = 0;
                Event::Released
            },
            Action::Halt { .. } => panic!("the harness never fails the encrypted session"),
        }
    }
}

#[test]
fn orchestrator_never_holds_two_sessions() {
    let config = sample_config();
    let topics = sample_topics();
    let mut seed: u32 = 2024;
    for policy in [LossPolicy::KeepSession, LossPolicy::Reconnect] {
        let mut orchestrator = Orchestrator::new(&config, &topics, policy);
        let mut ledger = Ledger { sockets: 0, secure_sessions: 0, application_sessions: 0 };
        let mut attempts: u32 = 0;
        for _ in 0..20_000 {
            seed = seed.wrapping_mul(1_103_515_245).wrapping_add(12_345);
            let good = (seed >> 16) % 4 != 0;
            let action = orchestrator.action();
            if action == (Action::Wait { millis: 1_000 }) {
                // an attempt begins with nothing left of the one before
                assert_eq!(ledger.sockets + ledger.secure_sessions + ledger.application_sessions, 0);
                attempts += 1;
            }
            let event = ledger.perform(&action, good);
            assert!(orchestrator.on_event(event) != Disposition::Ignored);
            assert!(ledger.sockets <= 1);
            assert!(ledger.secure_sessions <= 1);
            assert!(ledger.application_sessions <= 1);
            let held = orchestrator.held();
            assert_eq!(u32::from(held.sockets), ledger.sockets);
            assert_eq!(u32::from(held.secure_sessions), ledger.secure_sessions);
            assert_eq!(u32::from(held.application_sessions), ledger.application_sessions);
        }
        // once the receive loop is entered, only the policy `Reconnect` leaves it
        match policy {
            LossPolicy::KeepSession => assert!(attempts >= 1),
            LossPolicy::Reconnect => assert!(attempts > 10),
        }
    }
}
