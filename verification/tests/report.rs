use route53_ddns::address::NetworkError;
use route53_ddns::params::Flag;
use route53_ddns::report::{
    announce, describe_network_error, report_configuration_failure, report_lookup_failure,
    report_out_of_turn, report_submission_failure, report_success, report_usage,
};

#[test]
fn announcement_names_zone_record_and_address() {
    assert_eq!(
        announce("/hostedzone/Z31T92M9QYO6S8", "foo.com.", "203.0.113.7"),
        vec![
            "Updating DNS record...".to_string(),
            "Hosted Zone ID: /hostedzone/Z31T92M9QYO6S8".to_string(),
            "Record Name: foo.com.".to_string(),
            "IP Address: 203.0.113.7".to_string(),
        ]
    );
}

#[test]
fn success_names_record_and_address() {
    assert_eq!(
        report_success("foo.com.", "203.0.113.7"),
        vec!["Successfully changed DNS record for foo.com. to 203.0.113.7".to_string()]
    );
}

#[test]
fn transport_failure_is_reported_in_its_own_words() {
    let error = NetworkError::Transport("connection refused".to_string());
    assert_eq!(describe_network_error(&error), "connection refused");
    assert_eq!(
        report_lookup_failure(&error),
        vec![
            "Failed to retrieve WAN IP address: connection refused".to_string(),
            "Error: Failed to retrieve WAN IP address".to_string(),
        ]
    );
}

#[test]
fn status_is_written_in_decimal() {
    for status in [0_u16, 7, 9, 10, 11, 99, 100, 101, 404, 503, 999, 1000, 9999, 10000, 65535] {
        assert_eq!(
            describe_network_error(&NetworkError::Status(status)),
            format!("HTTP status {}", status)
        );
    }
}

#[test]
fn every_status_is_written_as_the_standard_library_writes_it() {
    for status in 0..=u16::MAX {
        assert_eq!(
            describe_network_error(&NetworkError::Status(status)),
            format!("HTTP status {}", status)
        );
    }
}

#[test]
fn failed_status_is_reported() {
    assert_eq!(
        report_lookup_failure(&NetworkError::Status(503)),
        vec![
            "Failed to retrieve WAN IP address: HTTP status 503".to_string(),
            "Error: Failed to retrieve WAN IP address".to_string(),
        ]
    );
}

#[test]
fn configuration_failure_is_reported() {
    assert_eq!(
        report_configuration_failure("profile home not found"),
        vec!["Failed to configure the DNS client: profile home not found".to_string()]
    );
}

#[test]
fn submission_failure_is_reported() {
    assert_eq!(
        report_submission_failure("AccessDenied"),
        vec!["change resource record sets: AccessDenied".to_string()]
    );
}

#[test]
fn event_out_of_turn_is_reported() {
    assert_eq!(report_out_of_turn(), vec!["Error: event out of turn".to_string()]);
}

#[test]
fn usage_lists_each_absent_flag() {
    assert_eq!(
        report_usage(&vec![Flag::Region, Flag::RecordName]),
        vec![
            "error: the following required arguments were not provided:".to_string(),
            "  --region <REGION>".to_string(),
            "  --record-name <RECORD_NAME>".to_string(),
        ]
    );
    assert_eq!(
        report_usage(&vec![Flag::Profile, Flag::Region, Flag::HostedZoneId, Flag::RecordName]).len(),
        5
    );
}

#[test]
fn usage_without_absent_flags_is_the_heading_alone() {
    assert_eq!(
        report_usage(&Vec::new()),
        vec!["error: the following required arguments were not provided:".to_string()]
    );
}
