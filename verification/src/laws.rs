//! What holds of every run, whatever events the surrounding program feeds
//! to the machine.

use vstd::prelude::*;
use crate::address::echo_service;
use crate::change::{upsert_request, ChangeAction, RecordType};
use crate::params::RawArgumentsView;
use crate::report::{announcement, success_line};
use crate::run::{exit_status, next, ActionView, EventView, Failure, RunStateView};

verus! {

/// The actions that a machine asks for, in order, when it stands in `state`
/// and is fed `events` one after the other.
pub open spec fn trace(state: RunStateView, events: Seq<EventView>) -> Seq<ActionView>
    decreases events.len(),
{
    if events.len() == 0 {
        Seq::empty()
    } else {
        let step = next(state, events.first());
        seq![step.action] + trace(step.state, events.drop_first())
    }
}

/// Where a machine stands after it was fed `events`, starting in `state`.
pub open spec fn state_after(state: RunStateView, events: Seq<EventView>) -> RunStateView
    decreases events.len(),
{
    if events.len() == 0 {
        state
    } else {
        state_after(next(state, events.first()).state, events.drop_first())
    }
}

/// The actions of a run from its beginning: `actions(events)[i]` is the
/// answer to `events[i]`.
pub open spec fn actions(events: Seq<EventView>) -> Seq<ActionView> {
    trace(RunStateView::Idle, events)
}

/// Where a run stands after `events`, from its beginning.
pub open spec fn outcome(events: Seq<EventView>) -> RunStateView {
    state_after(RunStateView::Idle, events)
}

/// The action with which a finished run answers every further event.
pub open spec fn leave(failure: Option<Failure>) -> ActionView {
    ActionView::Exit { code: exit_status(failure), out: Seq::empty(), err: Seq::empty() }
}

/// Every event is answered by exactly one action.
pub proof fn lemma_trace_len(state: RunStateView, events: Seq<EventView>)
    ensures
        trace(state, events).len() == events.len(),
    decreases events.len(),
{
    if events.len() > 0 {
        lemma_trace_len(next(state, events.first()).state, events.drop_first());
    }
}

/// The first action answers the first event; the actions after it are those
/// of the machine that goes on from the state then reached.
pub proof fn lemma_trace_unfold(state: RunStateView, events: Seq<EventView>, i: int)
    requires
        0 <= i < events.len(),
    ensures
        i == 0 ==> trace(state, events)[i] == next(state, events[0]).action,
        i > 0 ==> trace(state, events)[i] == trace(
            next(state, events[0]).state,
            events.drop_first(),
        )[i - 1],
{
    lemma_trace_len(next(state, events.first()).state, events.drop_first());
}

/// A finished run stays finished: it answers every event by asking for the
/// same exit again, and never reaches out to the network.
pub proof fn lemma_finished_is_final(failure: Option<Failure>, events: Seq<EventView>)
    ensures
        state_after(RunStateView::Finished { failure }, events) == (RunStateView::Finished {
            failure,
        }),
        forall|i: int|
            0 <= i < events.len() ==> #[trigger] trace(RunStateView::Finished { failure }, events)[i]
                == leave(failure),
    decreases events.len(),
{
    let state = RunStateView::Finished { failure };
    if events.len() > 0 {
        assert(next(state, events[0]).state == state);
        lemma_finished_is_final(failure, events.drop_first());
        assert forall|i: int| 0 <= i < events.len() implies #[trigger] trace(state, events)[i]
            == leave(failure) by {
            lemma_trace_unfold(state, events, i);
        }
    }
}

/// The first two actions of a run answer its first two events; whatever
/// the second answer is, the run is then finished or waits for the
/// provider, and every action after it is an exit.
pub proof fn lemma_run_unfold(events: Seq<EventView>)
    ensures
        events.len() >= 1 ==> actions(events)[0] == next(RunStateView::Idle, events[0]).action,
        events.len() >= 2 ==> actions(events)[1] == next(
            next(RunStateView::Idle, events[0]).state,
            events[1],
        ).action,
        events.len() >= 3 ==> actions(events)[2] == next(
            next(next(RunStateView::Idle, events[0]).state, events[1]).state,
            events[2],
        ).action,
        forall|i: int| 2 <= i < events.len() ==> #[trigger] actions(events)[i] is Exit,
        events.len() >= 3 ==> outcome(events) == next(
            next(next(RunStateView::Idle, events[0]).state, events[1]).state,
            events[2],
        ).state,
{
    let idle = RunStateView::Idle;
    if events.len() >= 1 {
        lemma_trace_unfold(idle, events, 0);
        let first = next(idle, events[0]);
        let rest = events.drop_first();
        assert(outcome(events) == state_after(first.state, rest));
        if events.len() >= 2 {
            lemma_trace_unfold(idle, events, 1);
            lemma_trace_unfold(first.state, rest, 0);
            assert(rest[0] == events[1]);
            let second = next(first.state, rest[0]);
            let rest2 = rest.drop_first();
            assert(state_after(first.state, rest) == state_after(second.state, rest2));
            if events.len() >= 3 {
                assert(rest2[0] == events[2]);
                let third = next(second.state, rest2[0]);
                let rest3 = rest2.drop_first();
                assert(state_after(second.state, rest2) == state_after(third.state, rest3));
                // After two events a run is finished or waits for the provider,
                // so the third event finishes it at the latest.
                assert(third.state is Finished);
                lemma_finished_is_final(third.state->failure, rest3);
                assert forall|i: int| 2 <= i < events.len() implies #[trigger] actions(
                    events,
                )[i] is Exit by {
                    lemma_trace_unfold(idle, events, i);
                    lemma_trace_unfold(first.state, rest, i - 1);
                    lemma_trace_unfold(second.state, rest2, i - 2);
                    if i > 2 {
                        lemma_trace_unfold(third.state, rest3, i - 3);
                        assert(trace(third.state, rest3)[i - 3] == leave(third.state->failure));
                    }
                }
            }
        }
    }
}

/// In every run the address is asked for only as the answer to the first
/// event, and only if that event brought all four arguments. The request
/// goes to the one echo service; it is not repeated, and there is no other
/// service to fall back on.
pub proof fn law_single_lookup(events: Seq<EventView>, i: int)
    requires
        0 <= i < events.len(),
        actions(events)[i] is ResolveAddress,
    ensures
        i == 0,
        events[0] is Arguments,
        events[0]->Arguments_0.is_complete(),
        actions(events)[i]->endpoint == echo_service(),
{
    lemma_run_unfold(events);
}

/// In every run a change is submitted only as the answer to the second
/// event, and only if the first event brought all four arguments and the
/// second the resolved address. The request then holds exactly one change:
/// an upsert of an A record with a time-to-live of 300 seconds, whose only
/// value is the address as it was resolved. Hosted zone and record name are
/// those of the arguments, character for character.
pub proof fn law_submitted_change(events: Seq<EventView>, i: int)
    requires
        0 <= i < events.len(),
        actions(events)[i] is Submit,
    ensures
        i == 1,
        events[0] is Arguments,
        events[0]->Arguments_0.is_complete(),
        events[1] is AddressResolved,
        ({
            let params = events[0]->Arguments_0.params();
            let address = events[1]->AddressResolved_0;
            let request = actions(events)[i]->request;
            &&& actions(events)[i]->profile == params.profile
            &&& actions(events)[i]->region == params.region
            &&& request == upsert_request(params.hosted_zone_id, params.record_name, address)
            &&& request.hosted_zone_id == params.hosted_zone_id
            &&& request.changes.len() == 1
            &&& request.changes[0].action == ChangeAction::Upsert
            &&& request.changes[0].record_type == RecordType::A
            &&& request.changes[0].ttl == 300
            &&& request.changes[0].record_name == params.record_name
            &&& request.changes[0].values == seq![address]
        }),
{
    lemma_run_unfold(events);
}

/// With all four arguments given, a run first asks for the address, and
/// once the address is resolved it announces and submits the upsert for it.
/// Nothing is looked up or compared before: the change is submitted
/// whatever the record holds at the time.
pub proof fn law_resolved_address_is_submitted(
    raw: RawArgumentsView,
    address: Seq<char>,
    events: Seq<EventView>,
)
    requires
        raw.is_complete(),
        events.len() >= 2,
        events[0] == EventView::Arguments(raw),
        events[1] == EventView::AddressResolved(address),
    ensures
        actions(events)[0] == (ActionView::ResolveAddress { endpoint: echo_service() }),
        actions(events)[1] == (ActionView::Submit {
            profile: raw.params().profile,
            region: raw.params().region,
            request: upsert_request(
                raw.params().hosted_zone_id,
                raw.params().record_name,
                address,
            ),
            notice: announcement(raw.params().hosted_zone_id, raw.params().record_name, address),
        }),
{
    lemma_run_unfold(events);
}

/// No run submits twice: among the actions of a run there is at most one
/// submission, whatever is reported to it, a rejection included.
pub proof fn law_no_second_submission(events: Seq<EventView>, i: int, j: int)
    requires
        0 <= i < events.len(),
        0 <= j < events.len(),
        actions(events)[i] is Submit,
        actions(events)[j] is Submit,
    ensures
        i == j,
{
    law_submitted_change(events, i);
    law_submitted_change(events, j);
}

/// If the address could not be resolved, the run ends there with a status
/// other than 0, and nothing is ever submitted, whatever is reported
/// afterwards.
pub proof fn law_failed_lookup_submits_nothing(events: Seq<EventView>)
    requires
        events.len() >= 2,
        events[1] is AddressUnavailable,
    ensures
        forall|i: int| 0 <= i < events.len() ==> !(#[trigger] actions(events)[i] is Submit),
        forall|i: int|
            1 <= i < events.len() ==> #[trigger] actions(events)[i] is Exit && actions(
                events,
            )[i]->code != 0,
        outcome(events) is Finished,
        outcome(events)->failure is Some,
{
    lemma_run_unfold(events);
    let first = next(RunStateView::Idle, events[0]);
    let second = next(first.state, events[1]);
    assert(second.state is Finished && second.state->failure is Some);
    let failure = second.state->failure;
    let rest = events.drop_first().drop_first();
    assert(outcome(events) == state_after(second.state, rest)) by {
        assert(outcome(events) == state_after(first.state, events.drop_first()));
        assert(events.drop_first()[0] == events[1]);
    }
    lemma_finished_is_final(failure, rest);
    assert forall|i: int| 0 <= i < events.len() implies !(#[trigger] actions(events)[i] is Submit) by {
        if actions(events)[i] is Submit {
            law_submitted_change(events, i);
        }
    }
    assert forall|i: int| 1 <= i < events.len() implies #[trigger] actions(events)[i] is Exit
        && actions(events)[i]->code != 0 by {
        if i >= 2 {
            lemma_trace_unfold(RunStateView::Idle, events, i);
            lemma_trace_unfold(first.state, events.drop_first(), i - 1);
            assert(trace(second.state, rest)[i - 2] == leave(failure));
        }
    }
}

/// If the provider, or the way to it, refuses the change, the run ends
/// with a status other than 0 and the change is not submitted again:
/// every action after the one submission is an exit with such a status.
pub proof fn law_rejection_is_final(events: Seq<EventView>)
    requires
        events.len() >= 3,
        actions(events)[1] is Submit,
        events[2] is ChangeRejected || events[2] is ConfigurationFailed,
    ensures
        forall|i: int|
            2 <= i < events.len() ==> #[trigger] actions(events)[i] is Exit && actions(
                events,
            )[i]->code != 0,
        forall|i: int| 0 <= i < events.len() && i != 1 ==> !(#[trigger] actions(events)[i] is Submit),
        outcome(events) is Finished,
        outcome(events)->failure is Some,
{
    lemma_run_unfold(events);
    law_submitted_change(events, 1);
    let first = next(RunStateView::Idle, events[0]);
    let second = next(first.state, events[1]);
    let third = next(second.state, events[2]);
    let failure = third.state->failure;
    assert(failure is Some);
    let rest3 = events.drop_first().drop_first().drop_first();
    lemma_finished_is_final(failure, rest3);
    assert forall|i: int| 2 <= i < events.len() implies #[trigger] actions(events)[i] is Exit
        && actions(events)[i]->code != 0 by {
        if i > 2 {
            lemma_trace_unfold(RunStateView::Idle, events, i);
            lemma_trace_unfold(first.state, events.drop_first(), i - 1);
            assert(events.drop_first()[0] == events[1]);
            lemma_trace_unfold(second.state, events.drop_first().drop_first(), i - 2);
            assert(events.drop_first().drop_first()[0] == events[2]);
            assert(trace(third.state, rest3)[i - 3] == leave(failure));
        }
    }
    assert forall|i: int| 0 <= i < events.len() && i != 1 implies !(#[trigger] actions(
        events,
    )[i] is Submit) by {
        if actions(events)[i] is Submit {
            law_submitted_change(events, i);
        }
    }
}

/// If any of the four required arguments is absent, the run makes no
/// network call at all: its first action, and every action after it, is an
/// exit with the status of a usage failure.
pub proof fn law_missing_argument_prevents_network(raw: RawArgumentsView, events: Seq<EventView>)
    requires
        raw.profile is None || raw.region is None || raw.hosted_zone_id is None
            || raw.record_name is None,
        events.len() >= 1,
        events[0] == EventView::Arguments(raw),
    ensures
        forall|i: int|
            0 <= i < events.len() ==> {
                &&& !(#[trigger] actions(events)[i]).is_network_call()
                &&& actions(events)[i] is Exit
                &&& actions(events)[i]->code == exit_status(Some(Failure::Usage))
                &&& actions(events)[i]->code != 0
            },
        outcome(events) == (RunStateView::Finished { failure: Some(Failure::Usage) }),
{
    let idle = RunStateView::Idle;
    let usage = Some(Failure::Usage);
    let first = next(idle, events[0]);
    assert(first.state == RunStateView::Finished { failure: usage });
    let rest = events.drop_first();
    lemma_finished_is_final(usage, rest);
    assert forall|i: int| 0 <= i < events.len() implies {
        &&& !(#[trigger] actions(events)[i]).is_network_call()
        &&& actions(events)[i] is Exit
        &&& actions(events)[i]->code == exit_status(usage)
        &&& actions(events)[i]->code != 0
    } by {
        lemma_trace_unfold(idle, events, i);
        if i > 0 {
            assert(trace(first.state, rest)[i - 1] == leave(usage));
        }
    }
}

/// Runs do not know of each other. Two runs that are given the same
/// arguments and resolve the same address each submit, once, and what they
/// submit is the same request: nothing is remembered from the first run
/// that would hold the second one back or change what it asks for.
pub proof fn law_runs_are_independent(
    raw: RawArgumentsView,
    address: Seq<char>,
    first_run: Seq<EventView>,
    second_run: Seq<EventView>,
)
    requires
        raw.is_complete(),
        first_run.len() >= 2,
        second_run.len() >= 2,
        first_run[0] == EventView::Arguments(raw),
        second_run[0] == EventView::Arguments(raw),
        first_run[1] == EventView::AddressResolved(address),
        second_run[1] == EventView::AddressResolved(address),
    ensures
        actions(first_run)[1] is Submit,
        actions(second_run)[1] == actions(first_run)[1],
        actions(first_run)[1]->request == upsert_request(
            raw.params().hosted_zone_id,
            raw.params().record_name,
            address,
        ),
        forall|i: int|
            0 <= i < first_run.len() && i != 1 ==> !(#[trigger] actions(first_run)[i] is Submit),
        forall|i: int|
            0 <= i < second_run.len() && i != 1 ==> !(#[trigger] actions(second_run)[i] is Submit),
{
    law_resolved_address_is_submitted(raw, address, first_run);
    law_resolved_address_is_submitted(raw, address, second_run);
    assert forall|i: int| 0 <= i < first_run.len() && i != 1 implies !(#[trigger] actions(
        first_run,
    )[i] is Submit) by {
        if actions(first_run)[i] is Submit {
            law_submitted_change(first_run, i);
        }
    }
    assert forall|i: int| 0 <= i < second_run.len() && i != 1 implies !(#[trigger] actions(
        second_run,
    )[i] is Submit) by {
        if actions(second_run)[i] is Submit {
            law_submitted_change(second_run, i);
        }
    }
}

/// A run whose three steps all go well asks for the address, submits the
/// upsert, and, once the provider has acknowledged it, reports the change
/// on standard output and leaves with status 0. Acknowledgement is enough:
/// the run does not wait for the change to spread.
pub proof fn law_acknowledged_run_succeeds(
    raw: RawArgumentsView,
    address: Seq<char>,
    events: Seq<EventView>,
)
    requires
        raw.is_complete(),
        events.len() >= 3,
        events[0] == EventView::Arguments(raw),
        events[1] == EventView::AddressResolved(address),
        events[2] == EventView::ChangeAccepted,
    ensures
        actions(events)[0] is ResolveAddress,
        actions(events)[1] is Submit,
        actions(events)[2] == (ActionView::Exit {
            code: 0,
            out: seq![success_line(raw.params().record_name, address)],
            err: Seq::empty(),
        }),
        outcome(events) == (RunStateView::Finished { failure: None }),
{
    lemma_run_unfold(events);
}

/// Whenever a step ends a run, the exit that it asks for tells how the run
/// went. A failure leaves with a status other than 0 and says why on the
/// error stream, and prints nothing on standard output; success leaves
/// with status 0 and reports the change on standard output alone.
pub proof fn law_exit_tells_the_outcome(state: RunStateView, event: EventView)
    requires
        !(state is Finished),
        next(state, event).state is Finished,
    ensures
        next(state, event).action is Exit,
        next(state, event).action->code == exit_status(next(state, event).state->failure),
        next(state, event).state->failure is Some ==> {
            &&& next(state, event).action->code != 0
            &&& next(state, event).action->err.len() > 0
            &&& next(state, event).action->out.len() == 0
        },
        next(state, event).state->failure is None ==> {
            &&& next(state, event).action->code == 0
            &&& next(state, event).action->out.len() == 1
            &&& next(state, event).action->err.len() == 0
        },
{
}

/// The exit status of an outcome is 0 if and only if the outcome is no
/// failure.
pub proof fn law_status_zero_means_success(failure: Option<Failure>)
    ensures
        exit_status(failure) == 0 <==> failure is None,
{
}

} // verus!
