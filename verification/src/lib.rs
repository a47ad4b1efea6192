//! Connection lifecycle of a small network client: a wireless link, an
//! encrypted transport on top of it, and a publish/subscribe session on top of
//! that, each brought up, supervised and recovered by an explicit state
//! machine.
//!
//! The machines decide; a driver performs. A machine names the one action it
//! is waiting for ([`link::LinkSupervisor::action`],
//! [`orchestrator::Orchestrator::action`]); the driver carries it out and
//! hands the outcome back as an event (`on_event`), and is told how the
//! outcome was taken ([`disposition::Disposition`]). The machines hold no
//! socket and no session themselves, never block and never allocate.
//!
//! * [`config`] checks the texts that everything else reads: network name
//!   and secret, broker host and port, client identity and login.
//! * [`port`] reads the broker port from text.
//! * [`topics`] is the bounded list of topics to subscribe to.
//! * [`link`] keeps the wireless interface associated; [`link_laws`] states
//!   what holds of it.
//! * [`orchestrator`] waits for link and address and then runs one attempt
//!   after another; [`orchestrator_laws`] states what holds of it.
//! * [`reason`] tells the reason codes of the publish/subscribe layer apart.
//! * [`message`] reads a received payload as text.
//! * [`limits`] holds the capacities and delays.
//! * [`bounded`] holds what is taken on trust of the `heapless` containers.
pub mod bounded;
pub mod config;
pub mod disposition;
pub mod limits;
pub mod link;
pub mod link_laws;
pub mod message;
pub mod orchestrator;
pub mod orchestrator_laws;
pub mod port;
pub mod reason;
pub mod topics;
