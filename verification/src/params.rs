//! The four values that an invocation must supply, and the rule that none
//! of them may be absent.

use vstd::prelude::*;

verus! {

/// One of the four command-line flags. All of them are required.
#[derive(Clone, Copy, Debug, PartialEq, Eq, Structural)]
pub enum Flag {
    Profile,
    Region,
    HostedZoneId,
    RecordName,
}

/// What was found on the command line: each flag's value, if it was given.
#[derive(Clone, Debug, PartialEq, Eq)]
pub struct RawArguments {
    pub profile: Option<String>,
    pub region: Option<String>,
    pub hosted_zone_id: Option<String>,
    pub record_name: Option<String>,
}

/// The parameters of one run. They are fixed when the run starts.
#[derive(Clone, Debug, PartialEq, Eq)]
pub struct InvocationParams {
    /// Named credential profile of the cloud provider.
    pub profile: String,
    /// Cloud region of the DNS endpoint.
    pub region: String,
    /// Hosted zone that holds the record.
    pub hosted_zone_id: String,
    /// Fully qualified name of the record to upsert.
    pub record_name: String,
}

/// Why an invocation was refused: the required flags that it lacks, in the
/// order in which the flags are declared.
#[derive(Clone, Debug, PartialEq, Eq)]
pub struct UsageError {
    pub missing: Vec<Flag>,
}

/// Mathematical content of [`RawArguments`].
pub struct RawArgumentsView {
    pub profile: Option<Seq<char>>,
    pub region: Option<Seq<char>>,
    pub hosted_zone_id: Option<Seq<char>>,
    pub record_name: Option<Seq<char>>,
}

/// Mathematical content of [`InvocationParams`].
pub struct InvocationParamsView {
    pub profile: Seq<char>,
    pub region: Seq<char>,
    pub hosted_zone_id: Seq<char>,
    pub record_name: Seq<char>,
}

impl View for RawArguments {
    type V = RawArgumentsView;

    open spec fn view(&self) -> RawArgumentsView {
        RawArgumentsView {
            profile: self.profile.deep_view(),
            region: self.region.deep_view(),
            hosted_zone_id: self.hosted_zone_id.deep_view(),
            record_name: self.record_name.deep_view(),
        }
    }
}

impl View for InvocationParams {
    type V = InvocationParamsView;

    open spec fn view(&self) -> InvocationParamsView {
        InvocationParamsView {
            profile: self.profile@,
            region: self.region@,
            hosted_zone_id: self.hosted_zone_id@,
            record_name: self.record_name@,
        }
    }
}

impl View for UsageError {
    type V = Seq<Flag>;

    open spec fn view(&self) -> Seq<Flag> {
        self.missing@
    }
}

impl RawArgumentsView {
    /// All four flags carry a value.
    pub open spec fn is_complete(self) -> bool {
        &&& self.profile is Some
        &&& self.region is Some
        &&& self.hosted_zone_id is Some
        &&& self.record_name is Some
    }

    /// The flags without a value, in declaration order.
    pub open spec fn missing(self) -> Seq<Flag> {
        (if self.profile is None { seq![Flag::Profile] } else { Seq::<Flag>::empty() })
        + (if self.region is None { seq![Flag::Region] } else { Seq::<Flag>::empty() })
        + (if self.hosted_zone_id is None { seq![Flag::HostedZoneId] } else { Seq::<Flag>::empty() })
        + (if self.record_name is None { seq![Flag::RecordName] } else { Seq::<Flag>::empty() })
    }

    /// The parameters that complete arguments stand for.
    pub open spec fn params(self) -> InvocationParamsView
        recommends
            self.is_complete(),
    {
        InvocationParamsView {
            profile: self.profile->Some_0,
            region: self.region->Some_0,
            hosted_zone_id: self.hosted_zone_id->Some_0,
            record_name: self.record_name->Some_0,
        }
    }
}

impl Flag {
    /// The flag as it is written on the command line, with the placeholder
    /// of its value.
    pub open spec fn usage_text(self) -> Seq<char> {
        match self {
            Flag::Profile => "--profile <PROFILE>"@,
            Flag::Region => "--region <REGION>"@,
            Flag::HostedZoneId => "--hosted-zone-id <HOSTED_ZONE_ID>"@,
            Flag::RecordName => "--record-name <RECORD_NAME>"@,
        }
    }

    /// The text of [`Flag::usage_text`].
    pub fn usage(self) -> (text: &'static str)
        ensures
            text@ == self.usage_text(),
    {
        match self {
            Flag::Profile => "--profile <PROFILE>",
            Flag::Region => "--region <REGION>",
            Flag::HostedZoneId => "--hosted-zone-id <HOSTED_ZONE_ID>",
            Flag::RecordName => "--record-name <RECORD_NAME>",
        }
    }
}

impl RawArguments {
    /// Lists the flags that have no value, in declaration order.
    pub fn missing(&self) -> (flags: Vec<Flag>)
        ensures
            flags@ == self@.missing(),
            flags@.len() == 0 <==> self@.is_complete(),
    {
        let mut flags: Vec<Flag> = Vec::new();
        if self.profile.is_none() {
            flags.push(Flag::Profile);
        }
        if self.region.is_none() {
            flags.push(Flag::Region);
        }
        if self.hosted_zone_id.is_none() {
            flags.push(Flag::HostedZoneId);
        }
        if self.record_name.is_none() {
            flags.push(Flag::RecordName);
        }
        assert(flags@ =~= self@.missing());
        flags
    }
}

impl InvocationParams {
    /// Accepts the arguments if and only if all four flags have a value, and
    /// then keeps each value as it was given. There are no defaults: an
    /// absent flag is reported, together with every other absent flag.
    pub fn from_raw(raw: RawArguments) -> (result: Result<InvocationParams, UsageError>)
        ensures
            result is Ok <==> raw@.is_complete(),
            result matches Ok(params) ==> params@ == raw@.params(),
            result matches Err(error) ==> error@ == raw@.missing() && error@.len() > 0,
    {
        let missing = raw.missing();
        match (raw.profile, raw.region, raw.hosted_zone_id, raw.record_name) {
            (Some(profile), Some(region), Some(hosted_zone_id), Some(record_name)) => Ok(
                InvocationParams { profile, region, hosted_zone_id, record_name },
            ),
            _ => Err(UsageError { missing }),
        }
    }
}

} // verus!
