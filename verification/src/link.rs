//! The link supervisor: keeps the wireless interface associated.
//!
//! The supervisor never gives up on an association: a failed attempt and a
//! dropped link are each followed by a pause and another attempt. Only an
//! interface that cannot be configured or started ends it.
use vstd::prelude::*;
use crate::config::Config;
use crate::disposition::Disposition;
use crate::limits::LINK_RETRY_MS;

verus! {

/// What is known of the link.
#[derive(Debug, Clone, Copy, PartialEq, Eq, Structural)]
pub enum LinkState {
    Disconnected,
    Connecting,
    Connected,
}

/// Why the supervisor stopped.
#[derive(Debug, Clone, Copy, PartialEq, Eq, Structural)]
pub enum LinkFault {
    /// The interface refused the network name and secret.
    ConfigurationRejected,
    /// The interface did not start.
    StartFailed,
}

/// Where the supervisor stands. Each phase waits for one action of the
/// driver, named by [`LinkModel::action`].
#[derive(Debug, Clone, Copy, PartialEq, Eq, Structural)]
pub enum LinkPhase {
    /// About to look at the link.
    Observing,
    /// Associated; waiting for the link to drop.
    Connected,
    /// The link dropped; pausing.
    Dropped,
    /// About to ask whether the interface runs.
    Inspecting,
    /// The interface does not run and has yet to be configured.
    Idle,
    /// Configured; the interface has yet to start.
    Starting,
    /// The interface runs; an association is being attempted.
    Started,
    /// The association failed; pausing.
    AssociationFailed,
    /// Stopped for good.
    Failed { fault: LinkFault },
}

/// What the driver reports back.
#[derive(Debug, Clone, Copy, PartialEq, Eq, Structural)]
pub enum LinkEvent {
    /// The link was looked at.
    StateRead { connected: bool },
    /// The link dropped.
    Disconnected,
    /// The pause is over.
    DelayElapsed,
    /// The interface was asked whether it runs.
    StartedQueried { started: bool },
    /// The interface took the network name and secret, or refused them.
    Configured { accepted: bool },
    /// The interface started, or failed to.
    InterfaceStarted { ok: bool },
    /// The association came about, or failed.
    Associated { ok: bool },
}

/// What the driver is to do next.
#[derive(Clone, Copy, PartialEq, Eq)]
pub enum LinkAction<'a> {
    /// Look at the link and report `StateRead`.
    ReadState,
    /// Wait until the link drops and report `Disconnected`.
    AwaitDisconnect,
    /// Sleep for `millis` milliseconds and report `DelayElapsed`.
    Wait { millis: u64 },
    /// Ask the interface whether it runs and report `StartedQueried`.
    QueryStarted,
    /// Hand network name and secret of `config` to the interface and report
    /// `Configured`.
    Configure { config: &'a Config<'a> },
    /// Start the interface and report `InterfaceStarted`.
    Start,
    /// Attempt an association and report `Associated`.
    Associate,
    /// Stop: nothing more will be tried.
    Halt { fault: LinkFault },
}

/// The supervisor as a value: its phase and what it knows of the link.
#[derive(Debug, Clone, Copy, PartialEq, Eq, Structural)]
pub struct LinkModel {
    pub phase: LinkPhase,
    pub link: LinkState,
}

impl LinkModel {
    /// The supervisor before anything happened.
    pub open spec fn initial() -> LinkModel {
        LinkModel { phase: LinkPhase::Observing, link: LinkState::Disconnected }
    }

    /// Phase and link state fit together: the link counts as connected only
    /// while it is watched or about to be looked at, and as connecting exactly
    /// while an association is attempted.
    pub open spec fn wf(self) -> bool {
        match self.phase {
            LinkPhase::Observing => self.link != LinkState::Connecting,
            LinkPhase::Connected => self.link == LinkState::Connected,
            LinkPhase::Started => self.link == LinkState::Connecting,
            _ => self.link == LinkState::Disconnected,
        }
    }

    /// The action that the supervisor waits for.
    pub open spec fn action<'a>(self, config: &'a Config<'a>) -> LinkAction<'a> {
        match self.phase {
            LinkPhase::Observing => LinkAction::ReadState,
            LinkPhase::Connected => LinkAction::AwaitDisconnect,
            LinkPhase::Dropped => LinkAction::Wait { millis: LINK_RETRY_MS },
            LinkPhase::Inspecting => LinkAction::QueryStarted,
            LinkPhase::Idle => LinkAction::Configure { config },
            LinkPhase::Starting => LinkAction::Start,
            LinkPhase::Started => LinkAction::Associate,
            LinkPhase::AssociationFailed => LinkAction::Wait { millis: LINK_RETRY_MS },
            LinkPhase::Failed { fault } => LinkAction::Halt { fault },
        }
    }

    /// Whether `event` reports the outcome of the pending action.
    pub open spec fn answers(self, event: LinkEvent) -> bool {
        match (self.phase, event) {
            (LinkPhase::Observing, LinkEvent::StateRead { .. }) => true,
            (LinkPhase::Connected, LinkEvent::Disconnected) => true,
            (LinkPhase::Dropped, LinkEvent::DelayElapsed) => true,
            (LinkPhase::Inspecting, LinkEvent::StartedQueried { .. }) => true,
            (LinkPhase::Idle, LinkEvent::Configured { .. }) => true,
            (LinkPhase::Starting, LinkEvent::InterfaceStarted { .. }) => true,
            (LinkPhase::Started, LinkEvent::Associated { .. }) => true,
            (LinkPhase::AssociationFailed, LinkEvent::DelayElapsed) => true,
            _ => false,
        }
    }

    /// The supervisor after `event`. An event that does not answer the
    /// pending action changes nothing.
    pub open spec fn after(self, event: LinkEvent) -> LinkModel {
        match (self.phase, event) {
            (LinkPhase::Observing, LinkEvent::StateRead { connected }) => if connected {
                LinkModel { phase: LinkPhase::Connected, link: LinkState::Connected }
            } else {
                LinkModel { phase: LinkPhase::Inspecting, link: LinkState::Disconnected }
            },
            (LinkPhase::Connected, LinkEvent::Disconnected) => LinkModel {
                phase: LinkPhase::Dropped,
                link: LinkState::Disconnected,
            },
            (LinkPhase::Dropped, LinkEvent::DelayElapsed) => LinkModel {
                phase: LinkPhase::Inspecting,
                link: LinkState::Disconnected,
            },
            (LinkPhase::Inspecting, LinkEvent::StartedQueried { started }) => if started {
                LinkModel { phase: LinkPhase::Started, link: LinkState::Connecting }
            } else {
                LinkModel { phase: LinkPhase::Idle, link: LinkState::Disconnected }
            },
            (LinkPhase::Idle, LinkEvent::Configured { accepted }) => if accepted {
                LinkModel { phase: LinkPhase::Starting, link: LinkState::Disconnected }
            } else {
                LinkModel {
                    phase: LinkPhase::Failed { fault: LinkFault::ConfigurationRejected },
                    link: LinkState::Disconnected,
                }
            },
            (LinkPhase::Starting, LinkEvent::InterfaceStarted { ok }) => if ok {
                LinkModel { phase: LinkPhase::Started, link: LinkState::Connecting }
            } else {
                LinkModel {
                    phase: LinkPhase::Failed { fault: LinkFault::StartFailed },
                    link: LinkState::Disconnected,
                }
            },
            (LinkPhase::Started, LinkEvent::Associated { ok }) => if ok {
                LinkModel { phase: LinkPhase::Observing, link: LinkState::Connected }
            } else {
                LinkModel { phase: LinkPhase::AssociationFailed, link: LinkState::Disconnected }
            },
            (LinkPhase::AssociationFailed, LinkEvent::DelayElapsed) => LinkModel {
                phase: LinkPhase::Observing,
                link: LinkState::Disconnected,
            },
            _ => self,
        }
    }

    /// What `event` means to the supervisor.
    pub open spec fn disposition(self, event: LinkEvent) -> Disposition {
        if !self.answers(event) {
            Disposition::Ignored
        } else {
            match event {
                LinkEvent::Disconnected => Disposition::Transient,
                LinkEvent::Associated { ok: false } => Disposition::Transient,
                LinkEvent::Configured { accepted: false } => Disposition::Fatal,
                LinkEvent::InterfaceStarted { ok: false } => Disposition::Fatal,
                _ => Disposition::Progress,
            }
        }
    }

    /// The supervisor after each event of `events` in turn.
    pub open spec fn run(self, events: Seq<LinkEvent>) -> LinkModel
        decreases events.len(),
    {
        if events.len() == 0 {
            self
        } else {
            self.run(events.drop_last()).after(events.last())
        }
    }
}

/// The link supervisor.
pub struct LinkSupervisor<'a> {
    config: &'a Config<'a>,
    state: LinkModel,
}

impl<'a> View for LinkSupervisor<'a> {
    type V = LinkModel;

    closed spec fn view(&self) -> LinkModel {
        self.state
    }
}

impl<'a> LinkSupervisor<'a> {
    #[verifier::type_invariant]
    spec fn inv(self) -> bool {
        self.state.wf()
    }

    /// The configuration that the supervisor was made with.
    pub closed spec fn configured(self) -> &'a Config<'a> {
        self.config
    }

    /// A supervisor that has yet to look at the link.
    pub fn new(config: &'a Config<'a>) -> (supervisor: LinkSupervisor<'a>)
        ensures
            supervisor@ == LinkModel::initial(),
            supervisor.configured() == config,
    {
        LinkSupervisor {
            config,
            state: LinkModel { phase: LinkPhase::Observing, link: LinkState::Disconnected },
        }
    }

    /// The configuration that the supervisor was made with.
    pub fn config(&self) -> (config: &'a Config<'a>)
        ensures
            config == self.configured(),
    {
        self.config
    }

    /// Phase and link state, which always fit together.
    pub fn model(&self) -> (model: LinkModel)
        ensures
            model == self@,
            model.wf(),
    {
        proof {
            use_type_invariant(self);
        }
        self.state
    }

    /// Where the supervisor stands.
    pub fn phase(&self) -> (phase: LinkPhase)
        ensures
            phase == self@.phase,
    {
        self.state.phase
    }

    /// What the supervisor knows of the link.
    pub fn link_state(&self) -> (link: LinkState)
        ensures
            link == self@.link,
    {
        self.state.link
    }

    /// Whether the supervisor has stopped for good.
    pub fn has_failed(&self) -> (failed: bool)
        ensures
            failed == (self@.phase is Failed),
    {
        match self.state.phase {
            LinkPhase::Failed { .. } => true,
            _ => false,
        }
    }

    /// The action that the driver is to perform now.
    pub fn action(&self) -> (action: LinkAction<'a>)
        ensures
            action == self@.action(self.configured()),
    {
        match self.state.phase {
            LinkPhase::Observing => LinkAction::ReadState,
            LinkPhase::Connected => LinkAction::AwaitDisconnect,
            LinkPhase::Dropped => LinkAction::Wait { millis: LINK_RETRY_MS },
            LinkPhase::Inspecting => LinkAction::QueryStarted,
            LinkPhase::Idle => LinkAction::Configure { config: self.config },
            LinkPhase::Starting => LinkAction::Start,
            LinkPhase::Started => LinkAction::Associate,
            LinkPhase::AssociationFailed => LinkAction::Wait { millis: LINK_RETRY_MS },
            LinkPhase::Failed { fault } => LinkAction::Halt { fault },
        }
    }

    /// Takes the outcome of the pending action and moves on. An event that
    /// does not answer the pending action is ignored.
    pub fn on_event(&mut self, event: LinkEvent) -> (disposition: Disposition)
        ensures
            final(self)@ == old(self)@.after(event),
            final(self).configured() == old(self).configured(),
            disposition == old(self)@.disposition(event),
    {
        proof {
            use_type_invariant(&*self);
        }
        let (phase, link, disposition) = match (self.state.phase, event) {
            (LinkPhase::Observing, LinkEvent::StateRead { connected }) => {
                if connected {
                    (LinkPhase::Connected, LinkState::Connected, Disposition::Progress)
                } else {
                    (LinkPhase::Inspecting, LinkState::Disconnected, Disposition::Progress)
                }
            },
            (LinkPhase::Connected, LinkEvent::Disconnected) => {
                (LinkPhase::Dropped, LinkState::Disconnected, Disposition::Transient)
            },
            (LinkPhase::Dropped, LinkEvent::DelayElapsed) => {
                (LinkPhase::Inspecting, LinkState::Disconnected, Disposition::Progress)
            },
            (LinkPhase::Inspecting, LinkEvent::StartedQueried { started }) => {
                if started {
                    (LinkPhase::Started, LinkState::Connecting, Disposition::Progress)
                } else {
                    (LinkPhase::Idle, LinkState::Disconnected, Disposition::Progress)
                }
            },
            (LinkPhase::Idle, LinkEvent::Configured { accepted }) => {
                if accepted {
                    (LinkPhase::Starting, LinkState::Disconnected, Disposition::Progress)
                } else {
                    (
                        LinkPhase::Failed { fault: LinkFault::ConfigurationRejected },
                        LinkState::Disconnected,
                        Disposition::Fatal,
                    )
                }
            },
            (LinkPhase::Starting, LinkEvent::InterfaceStarted { ok }) => {
                if ok {
                    (LinkPhase::Started, LinkState::Connecting, Disposition::Progress)
                } else {
                    (
                        LinkPhase::Failed { fault: LinkFault::StartFailed },
                        LinkState::Disconnected,
                        Disposition::Fatal,
                    )
                }
            },
            (LinkPhase::Started, LinkEvent::Associated { ok }) => {
                if ok {
                    (LinkPhase::Observing, LinkState::Connected, Disposition::Progress)
                } else {
                    (LinkPhase::AssociationFailed, LinkState::Disconnected, Disposition::Transient)
                }
            },
            (LinkPhase::AssociationFailed, LinkEvent::DelayElapsed) => {
                (LinkPhase::Observing, LinkState::Disconnected, Disposition::Progress)
            },
            _ => (self.state.phase, self.state.link, Disposition::Ignored),
        };
        self.state = LinkModel { phase, link };
        disposition
    }
}

} // verus!
