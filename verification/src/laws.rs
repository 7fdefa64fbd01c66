//! What holds of the bring-up state machine on every input.

use vstd::prelude::*;
use crate::config::station_config;
use crate::failure::FailureReason;
use crate::identity::IdentityView;
use crate::lease::IpLease;
use crate::machine::{
    next_action, next_state, reported_failure, state_after, ActionView, EventView, State,
};
use crate::probe::{all_answered, ProbeSummary};
use crate::scan::{selected_channel, RecordView};

verus! {

/// What is asked of the caller in answer to the event at `index` of `events`,
/// when they arrive in turn starting in `state`.
pub open spec fn action_at(
    target: IdentityView,
    state: State,
    events: Seq<EventView>,
    index: int,
) -> ActionView {
    next_action(target, state_after(state, events.take(index)), events[index])
}

/// The event is a report on an application of the configuration.
pub open spec fn is_configuration_report(event: EventView) -> bool {
    event is Configured || event is ConfigurationRejected
}

/// Once bring-up has ended, no event changes the state, and the answer to
/// every event is to take the result.
pub proof fn lemma_terminal_state_is_final(target: IdentityView, state: State, event: EventView)
    requires
        state.is_terminal(),
    ensures
        next_state(state, event) == state,
        next_action(target, state, event) == ActionView::Finish,
{
}

/// Once bring-up has ended, no sequence of events changes the state.
pub proof fn lemma_terminal_state_stays(state: State, events: Seq<EventView>)
    requires
        state.is_terminal(),
    ensures
        state_after(state, events) == state,
    decreases events.len(),
{
    if events.len() > 0 {
        lemma_terminal_state_stays(state, events.drop_first());
    }
}

/// The caller is told to take the result exactly when bring-up has ended.
pub proof fn lemma_finish_means_ended(target: IdentityView, state: State, event: EventView)
    ensures
        next_action(target, state, event) is Finish <==> next_state(state, event).is_terminal(),
{
}

/// Where the caller is told to go on waiting, the state has not changed.
pub proof fn lemma_wait_changes_nothing(target: IdentityView, state: State, event: EventView)
    requires
        next_action(target, state, event) is Wait,
    ensures
        next_state(state, event) == state,
{
}

/// The steps of bring-up are taken in strict sequence: an event leaves the
/// state as it is, fails the step under way, or completes that step and no
/// other.
pub proof fn lemma_steps_are_taken_in_order(state: State, event: EventView)
    ensures
        ({
            let next = next_state(state, event);
            ||| next == state
            ||| next is Failed && !state.is_terminal()
            ||| !(next is Failed) && !(state is Failed) && next.steps_done() == state.steps_done()
                + 1
        }),
{
}

/// Bring-up starts once: where it has started, a further `Start` changes
/// nothing.
pub proof fn lemma_start_is_not_reentered(state: State)
    requires
        state != State::Idle,
    ensures
        next_state(state, EventView::Start) == state,
{
}

/// A step that reports an error ends bring-up with that error: the state is
/// `Failed`, it stays so whatever is reported later, and no later report is
/// answered with further work.
pub proof fn lemma_failure_ends_bring_up(
    target: IdentityView,
    state: State,
    event: EventView,
    later: Seq<EventView>,
)
    requires
        reported_failure(state, event) is Some,
    ensures
        reported_failure(state, event) matches Some(reason) && next_state(state, event)
            == State::Failed(reason),
        next_action(target, state, event) == ActionView::Finish,
        state_after(next_state(state, event), later) == next_state(state, event),
        forall|index: int|
            0 <= index < later.len() ==> action_at(target, next_state(state, event), later, index)
                == ActionView::Finish,
{
    let failed = next_state(state, event);
    lemma_terminal_state_stays(failed, later);
    assert forall|index: int| 0 <= index < later.len() implies action_at(
        target,
        failed,
        later,
        index,
    ) == ActionView::Finish by {
        lemma_terminal_state_stays(failed, later.take(index));
    }
}

/// Each blocking step fails with its own reason, and with no
/// other.
pub proof fn lemma_failure_names_its_step(state: State, event: EventView)
    ensures
        reported_failure(state, event) == Some(FailureReason::ScanError) <==> state
            == State::Scanning && event is ScanFailed,
        reported_failure(state, event) == Some(FailureReason::ConfigurationError) <==> state
            == State::Configuring && event is ConfigurationRejected,
        reported_failure(state, event) == Some(FailureReason::ConnectionError) <==> state
            == State::Connecting && event is ConnectionFailed,
        reported_failure(state, event) == Some(FailureReason::LeaseTimeout) <==> state
            == State::AwaitingLease && event is LeaseTimedOut,
        reported_failure(state, event) == Some(FailureReason::UnreachableGateway) <==> state
            is Verifying && (event is ProbingFailed || (event matches EventView::ProbesCompleted(
            summary,
        ) && !all_answered(summary))),
{
}

/// Verification is strict: the probes of the gateway lead to
/// `Ready` where every one of them was answered and at least one was sent,
/// and to `Failed(UnreachableGateway)` otherwise.
pub proof fn lemma_verification_is_strict(lease: IpLease, summary: ProbeSummary)
    ensures
        next_state(State::Verifying(lease), EventView::ProbesCompleted(summary)) == if summary.transmitted
            == summary.received && summary.transmitted > 0 {
            State::Ready(lease)
        } else {
            State::Failed(FailureReason::UnreachableGateway)
        },
{
}

/// One probe short of all is a failure, however many were sent.
pub proof fn lemma_one_lost_probe_fails_bring_up(lease: IpLease, transmitted: u32)
    requires
        transmitted >= 1,
    ensures
        next_state(
            State::Verifying(lease),
            EventView::ProbesCompleted(
                ProbeSummary { transmitted, received: (transmitted - 1) as u32 },
            ),
        ) == State::Failed(FailureReason::UnreachableGateway),
{
}

/// `Ready` is entered on one way only: from `Verifying`, on probes that were
/// all answered, with the lease that was verified.
pub proof fn lemma_ready_needs_all_probes_answered(state: State, event: EventView)
    requires
        next_state(state, event) is Ready,
        !(state is Ready),
    ensures
        state matches State::Verifying(lease) && next_state(state, event) == State::Ready(lease),
        event matches EventView::ProbesCompleted(summary) && all_answered(summary),
{
}

/// A configuration is handed out only in answer to a completed scan: the
/// channel hint is settled before the radio is configured.
pub proof fn lemma_configuration_follows_scan(target: IdentityView, state: State, event: EventView)
    requires
        next_action(target, state, event) is Configure,
    ensures
        state == State::Scanning,
        event is ScanCompleted,
        next_state(state, event) == State::Configuring,
{
}

/// A scan that completes leads to configuration whether or not it found the
/// target network: the configuration joins the target on the channel selected
/// from the records, or on none.
pub proof fn lemma_scan_outcome_is_not_fatal(target: IdentityView, records: Seq<RecordView>)
    ensures
        next_state(State::Scanning, EventView::ScanCompleted(records)) == State::Configuring,
        next_action(target, State::Scanning, EventView::ScanCompleted(records))
            == ActionView::Configure(
            station_config(target, selected_channel(records, target.name)),
        ),
{
}

/// A report on the configuration counts only while its application is
/// awaited. In any other state it changes nothing.
pub proof fn lemma_configuration_report_out_of_turn(state: State, report: EventView)
    requires
        is_configuration_report(report),
        state != State::Configuring,
    ensures
        next_state(state, report) == state,
{
}

/// To the orchestrator, applying the configuration a second time is no error:
/// once the radio has taken it, whatever is reported of a further application
/// leaves the state `Connecting` and asks for nothing new.
pub proof fn lemma_configuring_again_is_no_error(target: IdentityView, second: EventView)
    requires
        is_configuration_report(second),
    ensures
        next_state(State::Configuring, EventView::Configured) == State::Connecting,
        next_state(State::Connecting, second) == State::Connecting,
        next_action(target, State::Connecting, second) == ActionView::Wait,
{
}

/// Reporting the same application twice leaves the state that reporting it
/// once leaves, in every state; and a report of success never leads to
/// `Failed`.
pub proof fn lemma_configured_report_is_idempotent(state: State)
    ensures
        next_state(next_state(state, EventView::Configured), EventView::Configured) == next_state(
            state,
            EventView::Configured,
        ),
        next_state(state, EventView::Configured) is Failed ==> state is Failed,
{
}

} // verus!
