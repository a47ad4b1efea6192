//! What holds of the link supervisor, whatever the driver reports.
use vstd::prelude::*;
use crate::config::Config;
use crate::limits::LINK_RETRY_MS;
use crate::link::{LinkAction, LinkEvent, LinkModel, LinkState};

verus! {

/// An event that does not answer the pending action changes nothing; one that
/// does always moves the supervisor to another phase.
pub proof fn lemma_link_event_answers_or_is_ignored(model: LinkModel, event: LinkEvent)
    ensures
        !model.answers(event) ==> model.after(event) == model,
        model.answers(event) ==> model.after(event).phase != model.phase,
{
}

/// Every event leaves phase and link state fitting together.
pub proof fn lemma_link_step_keeps_wf(model: LinkModel, event: LinkEvent)
    requires
        model.wf(),
    ensures
        model.after(event).wf(),
{
}

/// Whatever the driver reports, and in whatever order, phase and link state
/// of a supervisor fit together.
pub proof fn lemma_link_run_keeps_wf(model: LinkModel, events: Seq<LinkEvent>)
    requires
        model.wf(),
    ensures
        model.run(events).wf(),
    decreases events.len(),
{
    if events.len() > 0 {
        lemma_link_run_keeps_wf(model, events.drop_last());
        lemma_link_step_keeps_wf(model.run(events.drop_last()), events.last());
    }
}

/// While the link counts as connected the supervisor asks for nothing but a
/// look at the link or a wait for its drop: it neither configures nor starts
/// the interface, and it attempts no association. An association is only ever
/// attempted from a link that counted as disconnected.
pub proof fn lemma_no_association_while_connected(
    model: LinkModel,
    event: LinkEvent,
    config: &Config,
)
    requires
        model.wf(),
    ensures
        model.link == LinkState::Connected ==> model.action(config) is ReadState || model.action(
            config,
        ) is AwaitDisconnect,
        model.action(config) is Associate ==> model.link == LinkState::Connecting,
        model.after(event).phase is Started && !(model.phase is Started) ==> model.link
            == LinkState::Disconnected,
        model.phase is Connected && !(event is Disconnected) ==> model.after(event) == model,
{
}

/// A link that drops while connected is taken up again without anyone's
/// help: the drop makes the link count as disconnected, a pause of five
/// seconds follows, then the interface is asked whether it runs. If it does,
/// the next action is an association; if it does not, it is configured and
/// started first, and the association follows.
pub proof fn lemma_drop_leads_to_association(model: LinkModel, config: &Config)
    requires
        model.wf(),
        model.phase is Connected,
    ensures
        ({
            let dropped = model.after(LinkEvent::Disconnected);
            let rested = dropped.after(LinkEvent::DelayElapsed);
            let running = rested.after(LinkEvent::StartedQueried { started: true });
            let stopped = rested.after(LinkEvent::StartedQueried { started: false });
            let configured = stopped.after(LinkEvent::Configured { accepted: true });
            let restarted = configured.after(LinkEvent::InterfaceStarted { ok: true });
            &&& dropped.link == LinkState::Disconnected
            &&& dropped.action(config) == LinkAction::Wait { millis: LINK_RETRY_MS }
            &&& rested.action(config) == LinkAction::QueryStarted
            &&& running.action(config) == LinkAction::Associate
            &&& stopped.action(config) == LinkAction::Configure { config }
            &&& configured.action(config) == LinkAction::Start
            &&& restarted.action(config) == LinkAction::Associate
        }),
{
}

/// A failed association is never the end: a pause of five seconds follows,
/// then a look at the link, and with the link still down and the interface
/// running the next action is another association.
pub proof fn lemma_failed_association_is_retried(model: LinkModel, config: &Config)
    requires
        model.wf(),
        model.phase is Started,
    ensures
        ({
            let failed = model.after(LinkEvent::Associated { ok: false });
            let rested = failed.after(LinkEvent::DelayElapsed);
            let seen = rested.after(LinkEvent::StateRead { connected: false });
            let again = seen.after(LinkEvent::StartedQueried { started: true });
            &&& !(failed.phase is Failed)
            &&& failed.action(config) == LinkAction::Wait { millis: LINK_RETRY_MS }
            &&& rested.action(config) == LinkAction::ReadState
            &&& seen.action(config) == LinkAction::QueryStarted
            &&& again.action(config) == LinkAction::Associate
        }),
{
}

} // verus!
