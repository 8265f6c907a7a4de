use route53_ddns::address::NetworkError;
use route53_ddns::change::ChangeRequest;
use route53_ddns::params::{InvocationParams, RawArguments};
use route53_ddns::run::{exit_code, step, Action, Event, Failure, RunState, Step};

fn arguments() -> RawArguments {
    RawArguments {
        profile: Some("home".to_string()),
        region: Some("us-east-1".to_string()),
        hosted_zone_id: Some("/hostedzone/Z31T92M9QYO6S8".to_string()),
        record_name: Some("foo.com.".to_string()),
    }
}

fn params() -> InvocationParams {
    InvocationParams {
        profile: "home".to_string(),
        region: "us-east-1".to_string(),
        hosted_zone_id: "/hostedzone/Z31T92M9QYO6S8".to_string(),
        record_name: "foo.com.".to_string(),
    }
}

fn submitting() -> RunState {
    RunState::Submitting { record_name: "foo.com.".to_string(), address: "203.0.113.7".to_string() }
}

fn every_event() -> Vec<Event> {
    vec![
        Event::Arguments(arguments()),
        Event::AddressResolved("203.0.113.7".to_string()),
        Event::AddressUnavailable(NetworkError::Status(500)),
        Event::ConfigurationFailed("no credentials".to_string()),
        Event::ChangeAccepted,
        Event::ChangeRejected("denied".to_string()),
    ]
}

fn leave(failure: Option<Failure>, code: i32) -> Step {
    Step {
        state: RunState::Finished { failure },
        action: Action::Exit { code, out: Vec::new(), err: Vec::new() },
    }
}

fn out_of_turn() -> Step {
    Step {
        state: RunState::Finished { failure: Some(Failure::OutOfTurn) },
        action: Action::Exit {
            code: 101,
            out: Vec::new(),
            err: vec!["Error: event out of turn".to_string()],
        },
    }
}

#[test]
fn run_begins_idle() {
    assert_eq!(RunState::initial(), RunState::Idle);
    assert!(!RunState::initial().is_finished());
}

#[test]
fn only_a_finished_run_is_over() {
    assert!(!RunState::Idle.is_finished());
    assert!(!RunState::ResolvingAddress { params: params() }.is_finished());
    assert!(!submitting().is_finished());
    assert!(RunState::Finished { failure: None }.is_finished());
    assert!(RunState::Finished { failure: Some(Failure::Submit) }.is_finished());
}

#[test]
fn exit_code_is_zero_for_success_alone() {
    assert_eq!(exit_code(None), 0);
    assert_eq!(exit_code(Some(Failure::Usage)), 2);
    assert_eq!(exit_code(Some(Failure::Network)), 1);
    assert_eq!(exit_code(Some(Failure::Config)), 101);
    assert_eq!(exit_code(Some(Failure::Submit)), 101);
    assert_eq!(exit_code(Some(Failure::OutOfTurn)), 101);
}

#[test]
fn complete_arguments_start_the_lookup() {
    assert_eq!(
        step(RunState::Idle, Event::Arguments(arguments())),
        Step {
            state: RunState::ResolvingAddress { params: params() },
            action: Action::ResolveAddress { endpoint: "https://api.ipify.org".to_string() },
        }
    );
}

#[test]
fn incomplete_arguments_end_the_run_as_usage_failure() {
    let raw = RawArguments { hosted_zone_id: None, ..arguments() };
    assert_eq!(
        step(RunState::Idle, Event::Arguments(raw)),
        Step {
            state: RunState::Finished { failure: Some(Failure::Usage) },
            action: Action::Exit {
                code: 2,
                out: Vec::new(),
                err: vec![
                    "error: the following required arguments were not provided:".to_string(),
                    "  --hosted-zone-id <HOSTED_ZONE_ID>".to_string(),
                ],
            },
        }
    );
}

#[test]
fn resolved_address_is_announced_and_submitted() {
    assert_eq!(
        step(
            RunState::ResolvingAddress { params: params() },
            Event::AddressResolved("203.0.113.7".to_string())
        ),
        Step {
            state: submitting(),
            action: Action::Submit {
                profile: "home".to_string(),
                region: "us-east-1".to_string(),
                request: ChangeRequest::upsert(
                    "/hostedzone/Z31T92M9QYO6S8",
                    "foo.com.",
                    "203.0.113.7"
                ),
                notice: vec![
                    "Updating DNS record...".to_string(),
                    "Hosted Zone ID: /hostedzone/Z31T92M9QYO6S8".to_string(),
                    "Record Name: foo.com.".to_string(),
                    "IP Address: 203.0.113.7".to_string(),
                ],
            },
        }
    );
}

#[test]
fn unavailable_address_ends_the_run_as_network_failure() {
    assert_eq!(
        step(
            RunState::ResolvingAddress { params: params() },
            Event::AddressUnavailable(NetworkError::Transport("timed out".to_string()))
        ),
        Step {
            state: RunState::Finished { failure: Some(Failure::Network) },
            action: Action::Exit {
                code: 1,
                out: Vec::new(),
                err: vec![
                    "Failed to retrieve WAN IP address: timed out".to_string(),
                    "Error: Failed to retrieve WAN IP address".to_string(),
                ],
            },
        }
    );
}

#[test]
fn acknowledgement_ends_the_run_with_success() {
    assert_eq!(
        step(submitting(), Event::ChangeAccepted),
        Step {
            state: RunState::Finished { failure: None },
            action: Action::Exit {
                code: 0,
                out: vec!["Successfully changed DNS record for foo.com. to 203.0.113.7".to_string()],
                err: Vec::new(),
            },
        }
    );
}

#[test]
fn rejection_ends_the_run_as_submit_failure() {
    assert_eq!(
        step(submitting(), Event::ChangeRejected("InvalidChangeBatch".to_string())),
        Step {
            state: RunState::Finished { failure: Some(Failure::Submit) },
            action: Action::Exit {
                code: 101,
                out: Vec::new(),
                err: vec!["change resource record sets: InvalidChangeBatch".to_string()],
            },
        }
    );
}

#[test]
fn failed_configuration_ends_the_run_as_config_failure() {
    assert_eq!(
        step(submitting(), Event::ConfigurationFailed("profile home not found".to_string())),
        Step {
            state: RunState::Finished { failure: Some(Failure::Config) },
            action: Action::Exit {
                code: 101,
                out: Vec::new(),
                err: vec!["Failed to configure the DNS client: profile home not found".to_string()],
            },
        }
    );
}

#[test]
fn finished_run_answers_every_event_with_the_same_exit() {
    for event in every_event() {
        assert_eq!(step(RunState::Finished { failure: None }, event), leave(None, 0));
    }
    for event in every_event() {
        assert_eq!(
            step(RunState::Finished { failure: Some(Failure::Network) }, event),
            leave(Some(Failure::Network), 1)
        );
    }
    for event in every_event() {
        assert_eq!(
            step(RunState::Finished { failure: Some(Failure::Usage) }, event),
            leave(Some(Failure::Usage), 2)
        );
    }
}

#[test]
fn idle_run_waits_for_arguments_alone() {
    for event in every_event() {
        if !matches!(event, Event::Arguments(_)) {
            assert_eq!(step(RunState::Idle, event), out_of_turn());
        }
    }
}

#[test]
fn resolving_run_waits_for_the_address_alone() {
    for event in every_event() {
        if !matches!(event, Event::AddressResolved(_) | Event::AddressUnavailable(_)) {
            assert_eq!(step(RunState::ResolvingAddress { params: params() }, event), out_of_turn());
        }
    }
}

#[test]
fn submitting_run_waits_for_the_provider_alone() {
    for event in every_event() {
        if matches!(
            event,
            Event::Arguments(_) | Event::AddressResolved(_) | Event::AddressUnavailable(_)
        ) {
            assert_eq!(step(submitting(), event), out_of_turn());
        }
    }
}

#[test]
fn no_state_answers_a_provider_event_by_submitting() {
    let states = [
        RunState::Idle,
        RunState::ResolvingAddress { params: params() },
        submitting(),
        RunState::Finished { failure: None },
        RunState::Finished { failure: Some(Failure::Submit) },
    ];
    for state in states {
        for event in [
            Event::ChangeRejected("denied".to_string()),
            Event::ConfigurationFailed("no credentials".to_string()),
            Event::ChangeAccepted,
        ] {
            let answer = step(state.clone(), event);
            assert!(matches!(answer.action, Action::Exit { .. }));
            assert!(answer.state.is_finished());
        }
    }
}
