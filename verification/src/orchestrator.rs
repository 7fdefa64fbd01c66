//! The orchestrator of bring-up. It owns no radio: the caller performs each
//! action it is handed and reports the outcome as the next event.

use vstd::prelude::*;
use crate::config::StationConfig;
use crate::failure::FailureReason;
use crate::identity::{IdentityView, TargetIdentity};
use crate::lease::{IpLease, Ipv4Address, NetworkHandle};
use crate::machine::{next_action, next_state, ActionView, EventView, State};
use crate::probe::ProbeSummary;
use crate::scan::{select_channel, AccessPointRecord};

verus! {

/// What the caller reports to the orchestrator.
#[derive(Debug)]
pub enum Event {
    /// Bring-up is to begin.
    Start,
    /// The scan returned these records, in the order the radio reported them.
    ScanCompleted(Vec<AccessPointRecord>),
    /// The radio could not enumerate access points.
    ScanFailed,
    /// The radio took the configuration.
    Configured,
    /// The radio rejected the configuration.
    ConfigurationRejected,
    /// The radio associated with the target network.
    Connected,
    /// Association failed.
    ConnectionFailed,
    /// The network stack reported this lease.
    LeaseAcquired(IpLease),
    /// No lease came within the network stack's bound.
    LeaseTimedOut,
    /// The prober sent its probes and counted the answers.
    ProbesCompleted(ProbeSummary),
    /// The prober could not run.
    ProbingFailed,
}

impl View for Event {
    type V = EventView;

    open spec fn view(&self) -> EventView {
        match self {
            Event::Start => EventView::Start,
            Event::ScanCompleted(records) => EventView::ScanCompleted(records.deep_view()),
            Event::ScanFailed => EventView::ScanFailed,
            Event::Configured => EventView::Configured,
            Event::ConfigurationRejected => EventView::ConfigurationRejected,
            Event::Connected => EventView::Connected,
            Event::ConnectionFailed => EventView::ConnectionFailed,
            Event::LeaseAcquired(lease) => EventView::LeaseAcquired(*lease),
            Event::LeaseTimedOut => EventView::LeaseTimedOut,
            Event::ProbesCompleted(summary) => EventView::ProbesCompleted(*summary),
            Event::ProbingFailed => EventView::ProbingFailed,
        }
    }
}

/// What the orchestrator asks of the caller.
pub enum Action {
    /// Scan for access points and report `ScanCompleted` or `ScanFailed`.
    Scan,
    /// Apply this configuration and report `Configured` or
    /// `ConfigurationRejected`.
    Configure(StationConfig),
    /// Associate with the target network and report `Connected` or
    /// `ConnectionFailed`.
    Connect,
    /// Wait for an address and report `LeaseAcquired` or `LeaseTimedOut`.
    AwaitLease,
    /// Probe this address and report `ProbesCompleted` or `ProbingFailed`.
    Probe(Ipv4Address),
    /// Bring-up has ended: take the result.
    Finish,
    /// The event did not belong to the step under way: go on waiting for its
    /// outcome.
    Wait,
}

impl View for Action {
    type V = ActionView;

    open spec fn view(&self) -> ActionView {
        match self {
            Action::Scan => ActionView::Scan,
            Action::Configure(config) => ActionView::Configure(config@),
            Action::Connect => ActionView::Connect,
            Action::AwaitLease => ActionView::AwaitLease,
            Action::Probe(address) => ActionView::Probe(*address),
            Action::Finish => ActionView::Finish,
            Action::Wait => ActionView::Wait,
        }
    }
}

/// How bring-up ended.
#[derive(Clone, Copy, Debug)]
pub enum BringUpResult {
    /// The interface is up and its gateway answered every probe.
    Ready(NetworkHandle),
    /// Bring-up failed at the step that the reason names.
    Failed(FailureReason),
}

/// What an [`Orchestrator`] stands for.
pub struct OrchestratorView {
    /// The network that is being joined.
    pub target: IdentityView,
    /// Where bring-up stands.
    pub state: State,
}

/// Drives one bring-up attempt for one target network.
pub struct Orchestrator {
    target: TargetIdentity,
    state: State,
}

impl View for Orchestrator {
    type V = OrchestratorView;

    closed spec fn view(&self) -> OrchestratorView {
        OrchestratorView { target: self.target@, state: self.state }
    }
}

impl Orchestrator {
    /// An orchestrator for `target`, idle until it is told to start.
    pub fn new(target: TargetIdentity) -> (orchestrator: Orchestrator)
        ensures
            orchestrator@ == (OrchestratorView { target: target@, state: State::Idle }),
    {
        Orchestrator { target, state: State::Idle }
    }

    /// The network that is being joined.
    pub fn target(&self) -> (target: &TargetIdentity)
        ensures
            target@ == self@.target,
    {
        &self.target
    }

    /// Where bring-up stands.
    pub fn state(&self) -> (state: State)
        ensures
            state == self@.state,
    {
        self.state
    }

    /// How bring-up ended, once it has.
    pub fn result(&self) -> (result: Option<BringUpResult>)
        ensures
            match self@.state {
                State::Ready(lease) => result matches Some(BringUpResult::Ready(handle))
                    && handle.lease() == lease,
                State::Failed(reason) => result matches Some(BringUpResult::Failed(given))
                    && given == reason,
                _ => result is None,
            },
    {
        match self.state {
            State::Ready(lease) => Some(BringUpResult::Ready(NetworkHandle::new(lease))),
            State::Failed(reason) => Some(BringUpResult::Failed(reason)),
            _ => None,
        }
    }

    /// Takes the outcome of the step under way, moves on, and says what to do
    /// next. The target network never changes.
    pub fn step(&mut self, event: Event) -> (action: Action)
        ensures
            final(self)@.target == old(self)@.target,
            final(self)@.state == next_state(old(self)@.state, event@),
            action@ == next_action(old(self)@.target, old(self)@.state, event@),
    {
        match self.state {
            State::Idle => match event {
                Event::Start => {
                    self.state = State::Scanning;
                    Action::Scan
                },
                _ => Action::Wait,
            },
            State::Scanning => match event {
                Event::ScanCompleted(records) => {
                    let hint = select_channel(&records, &self.target);
                    self.state = State::Configuring;
                    Action::Configure(StationConfig::new(&self.target, hint))
                },
                Event::ScanFailed => {
                    self.state = State::Failed(FailureReason::ScanError);
                    Action::Finish
                },
                _ => Action::Wait,
            },
            State::Configuring => match event {
                Event::Configured => {
                    self.state = State::Connecting;
                    Action::Connect
                },
                Event::ConfigurationRejected => {
                    self.state = State::Failed(FailureReason::ConfigurationError);
                    Action::Finish
                },
                _ => Action::Wait,
            },
            State::Connecting => match event {
                Event::Connected => {
                    self.state = State::AwaitingLease;
                    Action::AwaitLease
                },
                Event::ConnectionFailed => {
                    self.state = State::Failed(FailureReason::ConnectionError);
                    Action::Finish
                },
                _ => Action::Wait,
            },
            State::AwaitingLease => match event {
                Event::LeaseAcquired(lease) => {
                    self.state = State::Verifying(lease);
                    Action::Probe(lease.gateway)
                },
                Event::LeaseTimedOut => {
                    self.state = State::Failed(FailureReason::LeaseTimeout);
                    Action::Finish
                },
                _ => Action::Wait,
            },
            State::Verifying(lease) => match event {
                Event::ProbesCompleted(summary) => {
                    if summary.proves_reachable() {
                        self.state = State::Ready(lease);
                    } else {
                        self.state = State::Failed(FailureReason::UnreachableGateway);
                    }
                    Action::Finish
                },
                Event::ProbingFailed => {
                    self.state = State::Failed(FailureReason::UnreachableGateway);
                    Action::Finish
                },
                _ => Action::Wait,
            },
            State::Ready(_) => Action::Finish,
            State::Failed(_) => Action::Finish,
        }
    }
}

} // verus!
