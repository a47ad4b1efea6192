//! What holds of the orchestrator, whatever the driver reports.
use vstd::prelude::*;
use crate::config::Config;
use crate::disposition::Disposition;
use crate::limits::{
    ATTEMPT_PACING_MS, BUFFER_CAPACITY, MAX_PACKET_SIZE, READINESS_POLL_MS, RECEIVE_PACING_MS,
    SOCKET_IDLE_TIMEOUT_MS,
};
use crate::orchestrator::{
    Action, BrokerEndpoint, Event, Held, LossPolicy, Model, Phase, QualityOfService, TlsVersion,
};
use crate::reason::{ReasonClass, ReasonCode};
use crate::topics::TopicSet;
use smoltcp::wire::IpAddress;

verus! {

/// An event that does not answer the pending action changes nothing; one that
/// does always moves the orchestrator to another phase.
pub proof fn lemma_event_answers_or_is_ignored(model: Model, event: Event)
    ensures
        !model.answers(event) ==> model.after(event) == model,
        model.answers(event) ==> model.after(event).phase != model.phase,
{
}

/// Every event leaves the holdings fitting the phase.
pub proof fn lemma_step_keeps_wf(model: Model, event: Event)
    requires
        model.wf(),
    ensures
        model.after(event).wf(),
{
}

/// Whatever the driver reports, and in whatever order, the holdings of an
/// orchestrator fit its phase.
pub proof fn lemma_run_keeps_wf(model: Model, events: Seq<Event>)
    requires
        model.wf(),
    ensures
        model.run(events).wf(),
    decreases events.len(),
{
    if events.len() > 0 {
        lemma_run_keeps_wf(model, events.drop_last());
        lemma_step_keeps_wf(model.run(events.drop_last()), events.last());
    }
}

/// At no moment is there more than one socket, more than one encrypted
/// session or more than one client, whatever the driver has reported since
/// the orchestrator was made. A session never exists without the one below
/// it.
pub proof fn lemma_sessions_never_overlap(policy: LossPolicy, events: Seq<Event>)
    ensures
        Model::initial(policy).run(events).held.sockets <= 1,
        Model::initial(policy).run(events).held.secure_sessions <= 1,
        Model::initial(policy).run(events).held.application_sessions <= 1,
        Model::initial(policy).run(events).held.layered(),
{
    lemma_run_keeps_wf(Model::initial(policy), events);
}

/// An attempt begins only when nothing of an earlier one is left: in front of
/// an attempt, while the name is resolved and while the socket is opened the
/// orchestrator holds nothing. And a socket or session comes into being only
/// where there was none of its kind.
pub proof fn lemma_attempt_begins_with_nothing_held(model: Model, event: Event)
    requires
        model.wf(),
    ensures
        model.phase is Pacing || model.phase is Resolving || model.phase is Connecting
            ==> model.held == Held::nothing(),
        model.after(event).held.sockets > model.held.sockets ==> model.held.sockets == 0,
        model.after(event).held.secure_sessions > model.held.secure_sessions
            ==> model.held.secure_sessions == 0,
        model.after(event).held.application_sessions > model.held.application_sessions
            ==> model.held.application_sessions == 0,
{
}

/// Whether `event` reports a failure on the way to the broker that another
/// attempt may cure: the name did not resolve, the socket did not connect, or
/// connecting to the broker failed, for whatever reason.
pub open spec fn abandons_attempt(event: Event) -> bool {
    event is ResolveFailed || event is SocketFailed || event is BrokerRefused
}

/// A failed attempt leaves nothing behind. Whichever step failed, the
/// orchestrator asks for a release next, and once that is done it is exactly
/// what it was in front of its first attempt: nothing held, no address kept,
/// the chain to be walked from its first step.
pub proof fn lemma_failed_attempt_starts_afresh(
    model: Model,
    failure: Event,
    config: &Config,
    topics: &TopicSet,
)
    requires
        model.wf(),
        model.answers(failure),
        abandons_attempt(failure),
    ensures
        !(model.after(failure).phase is Halted),
        model.after(failure).action(config, topics) == Action::Release,
        model.after(failure).after(Event::Released) == Model::fresh(model.policy),
{
}

/// An attempt walks the whole chain, in order: the pacing delay of one
/// second, the resolution of the broker's name, the socket to the address
/// that came back, the encrypted session, the connection to the broker.
pub proof fn lemma_attempt_walks_whole_chain(
    policy: LossPolicy,
    address: IpAddress,
    config: &Config,
    topics: &TopicSet,
)
    ensures
        ({
            let paced = Model::fresh(policy);
            let resolving = paced.after(Event::DelayElapsed);
            let connecting = resolving.after(Event::HostResolved { address });
            let securing = connecting.after(Event::SocketConnected);
            let authenticating = securing.after(Event::SecureSessionReady);
            &&& paced.action(config, topics) == Action::Wait { millis: ATTEMPT_PACING_MS }
            &&& resolving.action(config, topics) == Action::ResolveHost {
                host: config.host_text(),
            }
            &&& connecting.action(config, topics) == Action::OpenSocket {
                endpoint: BrokerEndpoint {
                    host: config.host_text(),
                    address,
                    port: config@.broker_port,
                },
                idle_timeout_ms: SOCKET_IDLE_TIMEOUT_MS,
                buffer_capacity: BUFFER_CAPACITY,
            }
            &&& securing.action(config, topics) == Action::NegotiateTls {
                server_name: config.host_text(),
                min_version: TlsVersion::Tls1_2,
            }
            &&& authenticating.action(config, topics) == Action::ConnectBroker {
                config,
                max_subscribe_qos: QualityOfService::ExactlyOnce,
                max_packet_size: MAX_PACKET_SIZE,
                buffer_capacity: BUFFER_CAPACITY,
            }
        }),
{
}

/// A refused connection to the broker ends the attempt before anything is
/// subscribed to or received, whatever the reason code; a network error
/// counts as transient, any other code as unclassified.
pub proof fn lemma_refused_connection_ends_attempt(model: Model, reason: ReasonCode)
    requires
        model.wf(),
        model.phase is Authenticating,
    ensures
        model.after(Event::BrokerRefused { reason }).phase is Releasing,
        model.disposition(Event::BrokerRefused { reason }) == if reason.class()
            == ReasonClass::Network {
            Disposition::Transient
        } else {
            Disposition::Unclassified
        },
{
}

/// A subscription that fails does not end the attempt: the receive loop is
/// entered exactly as after a subscription that was granted.
pub proof fn lemma_failed_subscription_enters_receive_loop(
    model: Model,
    reason: ReasonCode,
    config: &Config,
    topics: &TopicSet,
)
    requires
        model.wf(),
        model.phase is Subscribing,
    ensures
        model.after(Event::SubscribeFailed { reason }) == model.after(Event::Subscribed),
        model.after(Event::SubscribeFailed { reason }).phase is Receiving,
        model.after(Event::SubscribeFailed { reason }).action(config, topics) == Action::Receive,
        model.disposition(Event::SubscribeFailed { reason }) == Disposition::Degraded,
{
}

/// Every turn of the receive loop is followed by the same delay of ten
/// seconds, whether a message came or receiving failed, and then by the next
/// turn. The one way out is a network error under the policy `Reconnect`:
/// it ends the attempt, and after the release the orchestrator stands in
/// front of a new one, holding nothing.
pub proof fn lemma_receive_loop_is_paced(
    model: Model,
    outcome: Event,
    config: &Config,
    topics: &TopicSet,
)
    requires
        model.wf(),
        model.phase is Receiving,
        outcome is MessageReceived || outcome is ReceiveFailed,
    ensures
        ({
            let leaves = model.policy == LossPolicy::Reconnect && (outcome matches Event::ReceiveFailed {
                reason,
            } && reason.class() == ReasonClass::Network);
            let next = model.after(outcome);
            &&& leaves ==> next.action(config, topics) == Action::Release
            &&& leaves ==> next.after(Event::Released) == Model::fresh(model.policy)
            &&& !leaves ==> next.action(config, topics) == Action::Wait {
                millis: RECEIVE_PACING_MS,
            }
            &&& !leaves ==> next.after(Event::DelayElapsed).action(config, topics)
                == Action::Receive
            &&& next.held == model.held
        }),
{
}

/// As long as the link is not reported up the orchestrator stays where it
/// began: it looks at the link, rests for half a second and looks again,
/// and attempts no connection.
pub proof fn lemma_no_attempt_without_link(
    model: Model,
    events: Seq<Event>,
    config: &Config,
    topics: &TopicSet,
)
    requires
        model.wf(),
        model.phase is AwaitingLink,
        forall|i: int| 0 <= i < events.len() ==> events[i] != (Event::LinkPolled { up: true }),
    ensures
        model.run(events).phase is AwaitingLink,
        model.run(events).held == Held::nothing(),
        model.run(events).action(config, topics) == Action::PollLink || model.run(events).action(
            config,
            topics,
        ) == (Action::Wait { millis: READINESS_POLL_MS }),
    decreases events.len(),
{
    if events.len() > 0 {
        lemma_no_attempt_without_link(model, events.drop_last(), config, topics);
    }
}

/// As long as no address is reported the orchestrator stays behind the link:
/// it asks for the address, rests for half a second and asks again, and
/// attempts no connection.
pub proof fn lemma_no_attempt_without_address(
    model: Model,
    events: Seq<Event>,
    config: &Config,
    topics: &TopicSet,
)
    requires
        model.wf(),
        model.phase is AwaitingAddress,
        forall|i: int|
            0 <= i < events.len() ==> events[i] != (Event::AddressPolled { assigned: true }),
    ensures
        model.run(events).phase is AwaitingAddress,
        model.run(events).held == Held::nothing(),
        model.run(events).action(config, topics) == Action::PollAddress || model.run(
            events,
        ).action(config, topics) == (Action::Wait { millis: READINESS_POLL_MS }),
    decreases events.len(),
{
    if events.len() > 0 {
        lemma_no_attempt_without_address(model, events.drop_last(), config, topics);
    }
}

/// A look that finds the link down, or no address, is followed by a rest of
/// half a second, and the rest by the next look: the orchestrator never looks
/// twice in a row.
pub proof fn lemma_polls_are_spaced(model: Model, config: &Config, topics: &TopicSet)
    requires
        model.wf(),
    ensures
        model.phase == (Phase::AwaitingLink { pausing: false }) ==> ({
            let rest = model.after(Event::LinkPolled { up: false });
            &&& rest.action(config, topics) == Action::Wait { millis: READINESS_POLL_MS }
            &&& rest.after(Event::DelayElapsed).action(config, topics) == Action::PollLink
        }),
        model.phase == (Phase::AwaitingAddress { pausing: false }) ==> ({
            let rest = model.after(Event::AddressPolled { assigned: false });
            &&& rest.action(config, topics) == Action::Wait { millis: READINESS_POLL_MS }
            &&& rest.after(Event::DelayElapsed).action(config, topics) == Action::PollAddress
        }),
{
}

/// No attempt is made before the link was seen up and an address was seen
/// assigned: an orchestrator that has left the wait for the link was told
/// that the link is up, and one that is ready was also told that an address
/// is assigned.
pub proof fn lemma_ready_needs_link_and_address(policy: LossPolicy, events: Seq<Event>)
    ensures
        !(Model::initial(policy).run(events).phase is AwaitingLink) ==> events.contains(
            Event::LinkPolled { up: true },
        ),
        Model::initial(policy).run(events).ready() ==> events.contains(
            Event::AddressPolled { assigned: true },
        ),
    decreases events.len(),
{
    if events.len() > 0 {
        let earlier = events.drop_last();
        lemma_ready_needs_link_and_address(policy, earlier);
        assert forall|event: Event| earlier.contains(event) implies events.contains(event) by {
            let i = choose|i: int| 0 <= i < earlier.len() && earlier[i] == event;
            assert(events[i] == event);
        }
        assert(events[events.len() - 1] == events.last());
    }
}

/// A failure of the encrypted session is the only one that stops the
/// orchestrator: it halts on both forms of it, and on no other event.
pub proof fn lemma_only_secure_session_failure_is_fatal(model: Model, event: Event)
    requires
        model.wf(),
        !(model.phase is Halted),
    ensures
        model.after(event).phase is Halted <==> model.phase is Securing && (event
            is SecureSessionSetupFailed || event is SecureSessionHandshakeFailed),
        model.after(event).phase is Halted <==> model.disposition(event) == Disposition::Fatal,
{
}

/// A halted orchestrator stays halted, whatever is reported to it.
pub proof fn lemma_halt_is_final(model: Model, events: Seq<Event>)
    requires
        model.phase is Halted,
    ensures
        model.run(events) == model,
    decreases events.len(),
{
    if events.len() > 0 {
        lemma_halt_is_final(model, events.drop_last());
    }
}

} // verus!
