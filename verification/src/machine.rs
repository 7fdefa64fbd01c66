//! The bring-up sequence as a state machine over plain values: which state
//! follows which outcome, and what is asked of the caller next.

use vstd::prelude::*;
use crate::config::{station_config, ConfigView};
use crate::failure::FailureReason;
use crate::identity::IdentityView;
use crate::lease::{IpLease, Ipv4Address};
use crate::probe::{all_answered, ProbeSummary};
use crate::scan::{selected_channel, RecordView};

verus! {

/// Where bring-up stands. Each state but the first and the last two waits for
/// the outcome of one blocking step.
#[derive(Clone, Copy, Debug, PartialEq, Eq, Structural)]
pub enum State {
    /// Nothing has been asked of the radio yet.
    Idle,
    /// A scan is under way.
    Scanning,
    /// The configuration is being applied.
    Configuring,
    /// The radio is associating with the target network.
    Connecting,
    /// The link is up and an address is awaited.
    AwaitingLease,
    /// The lease is known and its gateway is being probed.
    Verifying(IpLease),
    /// Bring-up succeeded on this lease.
    Ready(IpLease),
    /// Bring-up failed for this reason.
    Failed(FailureReason),
}

impl State {
    /// Bring-up has ended, one way or the other.
    pub open spec fn is_terminal(self) -> bool {
        self is Ready || self is Failed
    }

    /// How many steps of bring-up have succeeded on the way to this state.
    /// `Failed` does not say: it is entered from any step.
    pub open spec fn steps_done(self) -> nat {
        match self {
            State::Idle => 0,
            State::Scanning => 1,
            State::Configuring => 2,
            State::Connecting => 3,
            State::AwaitingLease => 4,
            State::Verifying(_) => 5,
            State::Ready(_) => 6,
            State::Failed(_) => 0,
        }
    }
}

/// What an event of the orchestrator stands for: the same report, with the
/// records of a scan as plain values.
pub enum EventView {
    Start,
    ScanCompleted(Seq<RecordView>),
    ScanFailed,
    Configured,
    ConfigurationRejected,
    Connected,
    ConnectionFailed,
    LeaseAcquired(IpLease),
    LeaseTimedOut,
    ProbesCompleted(ProbeSummary),
    ProbingFailed,
}

/// What an action of the orchestrator stands for: the same request, with the
/// configuration as plain values.
pub enum ActionView {
    Scan,
    Configure(ConfigView),
    Connect,
    AwaitLease,
    Probe(Ipv4Address),
    Finish,
    Wait,
}

/// The failure that `event` reports of the step that `state` waits for, if it
/// reports one. Probes count as lost unless every one was answered; where the
/// prober could not run, all of them count as lost.
pub open spec fn reported_failure(state: State, event: EventView) -> Option<FailureReason> {
    match (state, event) {
        (State::Scanning, EventView::ScanFailed) => Some(FailureReason::ScanError),
        (State::Configuring, EventView::ConfigurationRejected) => Some(
            FailureReason::ConfigurationError,
        ),
        (State::Connecting, EventView::ConnectionFailed) => Some(FailureReason::ConnectionError),
        (State::AwaitingLease, EventView::LeaseTimedOut) => Some(FailureReason::LeaseTimeout),
        (State::Verifying(_), EventView::ProbesCompleted(summary)) => if all_answered(summary) {
            None
        } else {
            Some(FailureReason::UnreachableGateway)
        },
        (State::Verifying(_), EventView::ProbingFailed) => Some(FailureReason::UnreachableGateway),
        _ => None,
    }
}

/// The state that `event` advances `state` to, if it is the event that `state`
/// waits for and it reports no failure. A scan that completes advances
/// bring-up whether or not it found the target network.
pub open spec fn advanced(state: State, event: EventView) -> Option<State> {
    match (state, event) {
        (State::Idle, EventView::Start) => Some(State::Scanning),
        (State::Scanning, EventView::ScanCompleted(_)) => Some(State::Configuring),
        (State::Configuring, EventView::Configured) => Some(State::Connecting),
        (State::Connecting, EventView::Connected) => Some(State::AwaitingLease),
        (State::AwaitingLease, EventView::LeaseAcquired(lease)) => Some(State::Verifying(lease)),
        (State::Verifying(lease), EventView::ProbesCompleted(summary)) => if all_answered(
            summary,
        ) {
            Some(State::Ready(lease))
        } else {
            None
        },
        _ => None,
    }
}

/// The state after `event` arrived in `state`. An event that does not belong
/// to the step that `state` waits for changes nothing.
pub open spec fn next_state(state: State, event: EventView) -> State {
    if let Some(reason) = reported_failure(state, event) {
        State::Failed(reason)
    } else if let Some(next) = advanced(state, event) {
        next
    } else {
        state
    }
}

/// What is asked of the caller after `event` arrived in `state`, for the
/// target network `target`.
pub open spec fn next_action(target: IdentityView, state: State, event: EventView) -> ActionView {
    if state.is_terminal() || reported_failure(state, event) is Some {
        ActionView::Finish
    } else {
        match (state, event) {
            (State::Idle, EventView::Start) => ActionView::Scan,
            (State::Scanning, EventView::ScanCompleted(records)) => ActionView::Configure(
                station_config(target, selected_channel(records, target.name)),
            ),
            (State::Configuring, EventView::Configured) => ActionView::Connect,
            (State::Connecting, EventView::Connected) => ActionView::AwaitLease,
            (State::AwaitingLease, EventView::LeaseAcquired(lease)) => ActionView::Probe(
                lease.gateway,
            ),
            (State::Verifying(_), EventView::ProbesCompleted(_)) => ActionView::Finish,
            _ => ActionView::Wait,
        }
    }
}

/// The state after all of `events` arrived in turn, starting in `state`.
pub open spec fn state_after(state: State, events: Seq<EventView>) -> State
    decreases events.len(),
{
    if events.len() == 0 {
        state
    } else {
        state_after(next_state(state, events.first()), events.drop_first())
    }
}

} // verus!
