use route53_ddns::params::{Flag, InvocationParams, RawArguments, UsageError};

fn all_given() -> RawArguments {
    RawArguments {
        profile: Some("home".to_string()),
        region: Some("us-east-1".to_string()),
        hosted_zone_id: Some("/hostedzone/Z31T92M9QYO6S8".to_string()),
        record_name: Some("foo.com.".to_string()),
    }
}

#[test]
fn complete_arguments_are_accepted_unchanged() {
    let params = InvocationParams::from_raw(all_given());
    assert_eq!(
        params,
        Ok(InvocationParams {
            profile: "home".to_string(),
            region: "us-east-1".to_string(),
            hosted_zone_id: "/hostedzone/Z31T92M9QYO6S8".to_string(),
            record_name: "foo.com.".to_string(),
        })
    );
}

#[test]
fn nothing_is_missing_from_complete_arguments() {
    assert_eq!(all_given().missing(), Vec::<Flag>::new());
}

#[test]
fn absent_profile_is_reported() {
    let raw = RawArguments { profile: None, ..all_given() };
    assert_eq!(raw.missing(), vec![Flag::Profile]);
    assert_eq!(InvocationParams::from_raw(raw), Err(UsageError { missing: vec![Flag::Profile] }));
}

#[test]
fn absent_region_is_reported() {
    let raw = RawArguments { region: None, ..all_given() };
    assert_eq!(InvocationParams::from_raw(raw), Err(UsageError { missing: vec![Flag::Region] }));
}

#[test]
fn absent_hosted_zone_is_reported() {
    let raw = RawArguments { hosted_zone_id: None, ..all_given() };
    assert_eq!(
        InvocationParams::from_raw(raw),
        Err(UsageError { missing: vec![Flag::HostedZoneId] })
    );
}

#[test]
fn absent_record_name_is_reported() {
    let raw = RawArguments { record_name: None, ..all_given() };
    assert_eq!(
        InvocationParams::from_raw(raw),
        Err(UsageError { missing: vec![Flag::RecordName] })
    );
}

#[test]
fn every_absent_flag_is_listed_in_declaration_order() {
    let raw = RawArguments { profile: None, region: None, hosted_zone_id: None, record_name: None };
    assert_eq!(
        InvocationParams::from_raw(raw),
        Err(UsageError {
            missing: vec![Flag::Profile, Flag::Region, Flag::HostedZoneId, Flag::RecordName],
        })
    );
    let raw = RawArguments { region: None, record_name: None, ..all_given() };
    assert_eq!(raw.missing(), vec![Flag::Region, Flag::RecordName]);
}

#[test]
fn empty_value_is_a_value() {
    let raw = RawArguments { profile: Some(String::new()), ..all_given() };
    let params = InvocationParams::from_raw(raw).unwrap();
    assert_eq!(params.profile, "");
    assert_eq!(params.region, "us-east-1");
}

#[test]
fn flags_are_shown_with_their_placeholders() {
    assert_eq!(Flag::Profile.usage(), "--profile <PROFILE>");
    assert_eq!(Flag::Region.usage(), "--region <REGION>");
    assert_eq!(Flag::HostedZoneId.usage(), "--hosted-zone-id <HOSTED_ZONE_ID>");
    assert_eq!(Flag::RecordName.usage(), "--record-name <RECORD_NAME>");
}
