//! One run of the updater as a state machine. The surrounding program
//! performs each action that the machine asks for and hands back what came
//! of it as an event; the machine decides what follows.

use vstd::prelude::*;
use crate::address::{echo_endpoint, echo_service, NetworkError, NetworkErrorView};
use crate::change::{upsert_request, ChangeRequest, ChangeRequestView};
use crate::params::{InvocationParams, InvocationParamsView, RawArguments, RawArgumentsView};
use crate::report::{
    announce, announcement, configuration_failure_lines, lookup_failure_lines, out_of_turn_lines,
    report_configuration_failure, report_lookup_failure, report_out_of_turn,
    report_submission_failure, report_success, report_usage, submission_failure_lines,
    success_line, usage_lines,
};

verus! {

/// Why a run failed. Every failure ends the run; none is retried.
#[derive(Clone, Copy, Debug, PartialEq, Eq, Structural)]
pub enum Failure {
    /// A required flag is absent.
    Usage,
    /// The public address could not be fetched.
    Network,
    /// Credentials or region could not be resolved.
    Config,
    /// The provider did not accept the change.
    Submit,
    /// An event arrived that the run did not wait for.
    OutOfTurn,
}

/// The exit status that stands for an outcome: 0 for success, and for each
/// failure a status other than 0.
pub open spec fn exit_status(failure: Option<Failure>) -> int {
    match failure {
        None => 0,
        Some(Failure::Usage) => 2,
        Some(Failure::Network) => 1,
        Some(Failure::Config) => 101,
        Some(Failure::Submit) => 101,
        Some(Failure::OutOfTurn) => 101,
    }
}

/// Computes [`exit_status`].
pub fn exit_code(failure: Option<Failure>) -> (code: i32)
    ensures
        code == exit_status(failure),
        code == 0 <==> failure is None,
{
    match failure {
        None => 0,
        Some(Failure::Usage) => 2,
        Some(Failure::Network) => 1,
        Some(Failure::Config) => 101,
        Some(Failure::Submit) => 101,
        Some(Failure::OutOfTurn) => 101,
    }
}

/// Where a run stands.
#[derive(Clone, Debug, PartialEq, Eq)]
pub enum RunState {
    /// Nothing has happened yet; the arguments are awaited.
    Idle,
    /// The public address was asked for.
    ResolvingAddress { params: InvocationParams },
    /// The change was handed over for submission.
    Submitting { record_name: String, address: String },
    /// The run is over.
    Finished { failure: Option<Failure> },
}

/// What the surrounding program reports to the machine.
#[derive(Clone, Debug, PartialEq, Eq)]
pub enum Event {
    /// The command line was read.
    Arguments(RawArguments),
    /// The echo service answered; this is the address it gave.
    AddressResolved(String),
    /// The echo service could not be asked, or did not answer with success.
    AddressUnavailable(NetworkError),
    /// Credentials or region could not be resolved.
    ConfigurationFailed(String),
    /// The provider acknowledged the change.
    ChangeAccepted,
    /// The provider, or the way to it, refused the change.
    ChangeRejected(String),
}

/// What the surrounding program is asked to do next.
#[derive(Clone, Debug, PartialEq, Eq)]
pub enum Action {
    /// Fetch the public address with one GET request to `endpoint`.
    ResolveAddress { endpoint: String },
    /// Print `notice`, then set up the provider's client for `profile` and
    /// `region` and submit `request`, once.
    Submit { profile: String, region: String, request: ChangeRequest, notice: Vec<String> },
    /// Print `out` on standard output and `err` on the error stream, then
    /// end the process with `code`.
    Exit { code: i32, out: Vec<String>, err: Vec<String> },
}

/// The machine's answer to an event.
#[derive(Clone, Debug, PartialEq, Eq)]
pub struct Step {
    pub state: RunState,
    pub action: Action,
}

/// Mathematical content of a [`RunState`].
pub enum RunStateView {
    Idle,
    ResolvingAddress { params: InvocationParamsView },
    Submitting { record_name: Seq<char>, address: Seq<char> },
    Finished { failure: Option<Failure> },
}

/// Mathematical content of an [`Event`].
pub enum EventView {
    Arguments(RawArgumentsView),
    AddressResolved(Seq<char>),
    AddressUnavailable(NetworkErrorView),
    ConfigurationFailed(Seq<char>),
    ChangeAccepted,
    ChangeRejected(Seq<char>),
}

/// Mathematical content of an [`Action`].
pub enum ActionView {
    ResolveAddress { endpoint: Seq<char> },
    Submit {
        profile: Seq<char>,
        region: Seq<char>,
        request: ChangeRequestView,
        notice: Seq<Seq<char>>,
    },
    Exit { code: int, out: Seq<Seq<char>>, err: Seq<Seq<char>> },
}

/// Mathematical content of a [`Step`].
pub struct StepView {
    pub state: RunStateView,
    pub action: ActionView,
}

impl View for RunState {
    type V = RunStateView;

    open spec fn view(&self) -> RunStateView {
        match self {
            RunState::Idle => RunStateView::Idle,
            RunState::ResolvingAddress { params } => RunStateView::ResolvingAddress {
                params: params@,
            },
            RunState::Submitting { record_name, address } => RunStateView::Submitting {
                record_name: record_name@,
                address: address@,
            },
            RunState::Finished { failure } => RunStateView::Finished { failure: *failure },
        }
    }
}

impl View for Event {
    type V = EventView;

    open spec fn view(&self) -> EventView {
        match self {
            Event::Arguments(raw) => EventView::Arguments(raw@),
            Event::AddressResolved(address) => EventView::AddressResolved(address@),
            Event::AddressUnavailable(error) => EventView::AddressUnavailable(error@),
            Event::ConfigurationFailed(cause) => EventView::ConfigurationFailed(cause@),
            Event::ChangeAccepted => EventView::ChangeAccepted,
            Event::ChangeRejected(cause) => EventView::ChangeRejected(cause@),
        }
    }
}

impl View for Action {
    type V = ActionView;

    open spec fn view(&self) -> ActionView {
        match self {
            Action::ResolveAddress { endpoint } => ActionView::ResolveAddress {
                endpoint: endpoint@,
            },
            Action::Submit { profile, region, request, notice } => ActionView::Submit {
                profile: profile@,
                region: region@,
                request: request@,
                notice: notice.deep_view(),
            },
            Action::Exit { code, out, err } => ActionView::Exit {
                code: *code as int,
                out: out.deep_view(),
                err: err.deep_view(),
            },
        }
    }
}

impl View for Step {
    type V = StepView;

    open spec fn view(&self) -> StepView {
        StepView { state: self.state@, action: self.action@ }
    }
}

impl ActionView {
    /// The action reaches out to the network: to the echo service or to the
    /// DNS provider.
    pub open spec fn is_network_call(self) -> bool {
        self is ResolveAddress || self is Submit
    }
}

/// The step that ends a run: the run is finished with `failure`, and the
/// process is asked to print the lines and leave with the matching status.
pub open spec fn finish(failure: Option<Failure>, out: Seq<Seq<char>>, err: Seq<Seq<char>>)
    -> StepView {
    StepView {
        state: RunStateView::Finished { failure },
        action: ActionView::Exit { code: exit_status(failure), out, err },
    }
}

/// The transition function of a run.
///
/// * Idle, arguments: with all four flags present the address is asked for;
///   with one absent the run ends as a usage failure, before any network call.
/// * Resolving, address: the change is built from the parameters and the
///   address as given, announced and handed over for submission. If the
///   address is unavailable the run ends as a network failure.
/// * Submitting: acknowledgement ends the run with success; a failure to
///   configure or to submit ends it with that failure. Nothing is submitted
///   a second time.
/// * Finished: the run stays finished and asks again for the same exit.
/// * Any other event ends the run as out of turn.
pub open spec fn next(state: RunStateView, event: EventView) -> StepView {
    match (state, event) {
        (RunStateView::Idle, EventView::Arguments(raw)) => {
            if raw.is_complete() {
                StepView {
                    state: RunStateView::ResolvingAddress { params: raw.params() },
                    action: ActionView::ResolveAddress { endpoint: echo_service() },
                }
            } else {
                finish(Some(Failure::Usage), Seq::empty(), usage_lines(raw.missing()))
            }
        },
        (RunStateView::ResolvingAddress { params }, EventView::AddressResolved(address)) => {
            StepView {
                state: RunStateView::Submitting { record_name: params.record_name, address },
                action: ActionView::Submit {
                    profile: params.profile,
                    region: params.region,
                    request: upsert_request(params.hosted_zone_id, params.record_name, address),
                    notice: announcement(params.hosted_zone_id, params.record_name, address),
                },
            }
        },
        (RunStateView::ResolvingAddress { .. }, EventView::AddressUnavailable(error)) => {
            finish(Some(Failure::Network), Seq::empty(), lookup_failure_lines(error))
        },
        (RunStateView::Submitting { record_name, address }, EventView::ChangeAccepted) => {
            finish(None, seq![success_line(record_name, address)], Seq::empty())
        },
        (RunStateView::Submitting { .. }, EventView::ConfigurationFailed(cause)) => {
            finish(Some(Failure::Config), Seq::empty(), configuration_failure_lines(cause))
        },
        (RunStateView::Submitting { .. }, EventView::ChangeRejected(cause)) => {
            finish(Some(Failure::Submit), Seq::empty(), submission_failure_lines(cause))
        },
        (RunStateView::Finished { failure }, _) => finish(failure, Seq::empty(), Seq::empty()),
        _ => finish(Some(Failure::OutOfTurn), Seq::empty(), out_of_turn_lines()),
    }
}

/// Ends a run with `failure` and the given lines.
fn finished(failure: Option<Failure>, out: Vec<String>, err: Vec<String>) -> (step: Step)
    ensures
        step@ == finish(failure, out.deep_view(), err.deep_view()),
{
    Step {
        state: RunState::Finished { failure },
        action: Action::Exit { code: exit_code(failure), out, err },
    }
}

/// Ends a run because an event arrived that it did not wait for.
fn out_of_turn() -> (step: Step)
    ensures
        step@ == finish(Some(Failure::OutOfTurn), Seq::empty(), out_of_turn_lines()),
{
    let out: Vec<String> = Vec::new();
    assert(out.deep_view() =~= Seq::<Seq<char>>::empty());
    finished(Some(Failure::OutOfTurn), out, report_out_of_turn())
}

impl RunState {
    /// The state in which every run begins. It holds nothing of any run
    /// before it.
    pub fn initial() -> (state: RunState)
        ensures
            state@ == RunStateView::Idle,
    {
        RunState::Idle
    }

    /// Whether the run is over.
    pub fn is_finished(&self) -> (over: bool)
        ensures
            over == (self@ is Finished),
    {
        match self {
            RunState::Finished { .. } => true,
            _ => false,
        }
    }
}

/// Takes one step of a run: from the state and what was reported to the
/// next state and what to do next, as [`next`] defines it.
pub fn step(state: RunState, event: Event) -> (step: Step)
    ensures
        step@ == next(state@, event@),
{
    let none: Vec<String> = Vec::new();
    assert(none.deep_view() =~= Seq::<Seq<char>>::empty());
    match state {
        RunState::Idle => match event {
            Event::Arguments(raw) => {
                match InvocationParams::from_raw(raw) {
                    Ok(params) => Step {
                        state: RunState::ResolvingAddress { params },
                        action: Action::ResolveAddress { endpoint: echo_endpoint().to_owned() },
                    },
                    Err(error) => finished(Some(Failure::Usage), none, report_usage(&error.missing)),
                }
            },
            _ => out_of_turn(),
        },
        RunState::ResolvingAddress { params } => match event {
            Event::AddressResolved(address) => {
                let request = ChangeRequest::upsert(
                    params.hosted_zone_id.as_str(),
                    params.record_name.as_str(),
                    address.as_str(),
                );
                let notice = announce(
                    params.hosted_zone_id.as_str(),
                    params.record_name.as_str(),
                    address.as_str(),
                );
                Step {
                    state: RunState::Submitting { record_name: params.record_name, address },
                    action: Action::Submit {
                        profile: params.profile,
                        region: params.region,
                        request,
                        notice,
                    },
                }
            },
            Event::AddressUnavailable(error) => finished(
                Some(Failure::Network),
                none,
                report_lookup_failure(&error),
            ),
            _ => out_of_turn(),
        },
        RunState::Submitting { record_name, address } => match event {
            Event::ChangeAccepted => finished(
                None,
                report_success(record_name.as_str(), address.as_str()),
                none,
            ),
            Event::ConfigurationFailed(cause) => finished(
                Some(Failure::Config),
                none,
                report_configuration_failure(cause.as_str()),
            ),
            Event::ChangeRejected(cause) => finished(
                Some(Failure::Submit),
                none,
                report_submission_failure(cause.as_str()),
            ),
            _ => out_of_turn(),
        },
        RunState::Finished { failure } => {
            let silent: Vec<String> = Vec::new();
            assert(silent.deep_view() =~= Seq::<Seq<char>>::empty());
            finished(failure, none, silent)
        },
    }
}

} // verus!
