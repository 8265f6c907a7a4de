//! The lines that a run prints: progress and result on standard output,
//! failures on the error stream.

use vstd::prelude::*;
use vstd::string::*;
use crate::address::{NetworkError, NetworkErrorView};
use crate::params::Flag;

verus! {

/// What is printed before the change is submitted.
pub open spec fn announcement(
    hosted_zone_id: Seq<char>,
    record_name: Seq<char>,
    address: Seq<char>,
) -> Seq<Seq<char>> {
    seq![
        "Updating DNS record..."@,
        "Hosted Zone ID: "@ + hosted_zone_id,
        "Record Name: "@ + record_name,
        "IP Address: "@ + address,
    ]
}

/// What is printed once the provider has accepted the change.
pub open spec fn success_line(record_name: Seq<char>, address: Seq<char>) -> Seq<char> {
    "Successfully changed DNS record for "@ + record_name + " to "@ + address
}

/// The decimal digit that stands for `d`, for `d` from 0 to 9.
pub open spec fn digit(d: int) -> char {
    if d == 0 {
        '0'
    } else if d == 1 {
        '1'
    } else if d == 2 {
        '2'
    } else if d == 3 {
        '3'
    } else if d == 4 {
        '4'
    } else if d == 5 {
        '5'
    } else if d == 6 {
        '6'
    } else if d == 7 {
        '7'
    } else if d == 8 {
        '8'
    } else {
        '9'
    }
}

/// `n` written in decimal, without leading zeros.
pub open spec fn decimal(n: nat) -> Seq<char>
    decreases n,
{
    if n < 10 {
        seq![digit(n as int)]
    } else {
        decimal(n / 10).push(digit((n % 10) as int))
    }
}

/// The cause of a failed lookup in words: the transport's own text, or the
/// status that the service answered with.
pub open spec fn network_cause(error: NetworkErrorView) -> Seq<char> {
    match error {
        NetworkErrorView::Transport(cause) => cause,
        NetworkErrorView::Status(status) => "HTTP status "@ + decimal(status as nat),
    }
}

/// What is reported when the public address could not be fetched.
pub open spec fn lookup_failure_lines(error: NetworkErrorView) -> Seq<Seq<char>> {
    seq![
        "Failed to retrieve WAN IP address: "@ + network_cause(error),
        "Error: Failed to retrieve WAN IP address"@,
    ]
}

/// What is reported when credentials or region could not be resolved.
pub open spec fn configuration_failure_lines(cause: Seq<char>) -> Seq<Seq<char>> {
    seq!["Failed to configure the DNS client: "@ + cause]
}

/// What is reported when the provider did not accept the change.
pub open spec fn submission_failure_lines(cause: Seq<char>) -> Seq<Seq<char>> {
    seq!["change resource record sets: "@ + cause]
}

/// What is reported when an event arrives that the run does not wait for.
pub open spec fn out_of_turn_lines() -> Seq<Seq<char>> {
    seq!["Error: event out of turn"@]
}

/// What is reported when required flags are absent: a heading, then one
/// line for each absent flag.
pub open spec fn usage_lines(missing: Seq<Flag>) -> Seq<Seq<char>> {
    seq!["error: the following required arguments were not provided:"@] + Seq::new(
        missing.len(),
        |i: int| "  "@ + missing[i].usage_text(),
    )
}

/// `label` followed by `value`.
fn labelled(label: &str, value: &str) -> (line: String)
    ensures
        line@ == label@ + value@,
{
    let mut line = label.to_owned();
    line.append(value);
    line
}

/// The lines of [`announcement`].
pub fn announce(hosted_zone_id: &str, record_name: &str, address: &str) -> (lines: Vec<String>)
    ensures
        lines.deep_view() == announcement(hosted_zone_id@, record_name@, address@),
{
    let mut lines: Vec<String> = Vec::new();
    lines.push("Updating DNS record...".to_owned());
    lines.push(labelled("Hosted Zone ID: ", hosted_zone_id));
    lines.push(labelled("Record Name: ", record_name));
    lines.push(labelled("IP Address: ", address));
    assert(lines.deep_view() =~= announcement(hosted_zone_id@, record_name@, address@));
    lines
}

/// The line of [`success_line`], as the only line.
pub fn report_success(record_name: &str, address: &str) -> (lines: Vec<String>)
    ensures
        lines.deep_view() == seq![success_line(record_name@, address@)],
{
    let mut line = labelled("Successfully changed DNS record for ", record_name);
    line.append(" to ");
    line.append(address);
    let mut lines: Vec<String> = Vec::new();
    lines.push(line);
    assert(lines.deep_view() =~= seq![success_line(record_name@, address@)]);
    lines
}

/// The text of one decimal digit.
fn digit_text(d: u16) -> (text: &'static str)
    requires
        d < 10,
    ensures
        text@ == seq![digit(d as int)],
{
    proof {
        reveal_strlit("0");
        reveal_strlit("1");
        reveal_strlit("2");
        reveal_strlit("3");
        reveal_strlit("4");
        reveal_strlit("5");
        reveal_strlit("6");
        reveal_strlit("7");
        reveal_strlit("8");
        reveal_strlit("9");
    }
    let text = if d == 0 {
        "0"
    } else if d == 1 {
        "1"
    } else if d == 2 {
        "2"
    } else if d == 3 {
        "3"
    } else if d == 4 {
        "4"
    } else if d == 5 {
        "5"
    } else if d == 6 {
        "6"
    } else if d == 7 {
        "7"
    } else if d == 8 {
        "8"
    } else {
        "9"
    };
    assert(text@ =~= seq![digit(d as int)]);
    text
}

/// Appends `n` in decimal to `line`.
fn append_decimal(line: &mut String, n: u16)
    ensures
        final(line)@ == old(line)@ + decimal(n as nat),
    decreases n,
{
    if n >= 10 {
        append_decimal(line, n / 10);
    }
    line.append(digit_text(n % 10));
    assert(line@ =~= old(line)@ + decimal(n as nat));
}

/// The text of [`network_cause`].
pub fn describe_network_error(error: &NetworkError) -> (cause: String)
    ensures
        cause@ == network_cause(error@),
{
    match error {
        NetworkError::Transport(cause) => cause.clone(),
        NetworkError::Status(status) => {
            let mut cause = "HTTP status ".to_owned();
            append_decimal(&mut cause, *status);
            cause
        },
    }
}

/// The lines of [`lookup_failure_lines`].
pub fn report_lookup_failure(error: &NetworkError) -> (lines: Vec<String>)
    ensures
        lines.deep_view() == lookup_failure_lines(error@),
{
    let cause = describe_network_error(error);
    let mut lines: Vec<String> = Vec::new();
    lines.push(labelled("Failed to retrieve WAN IP address: ", cause.as_str()));
    lines.push("Error: Failed to retrieve WAN IP address".to_owned());
    assert(lines.deep_view() =~= lookup_failure_lines(error@));
    lines
}

/// The lines of [`configuration_failure_lines`].
pub fn report_configuration_failure(cause: &str) -> (lines: Vec<String>)
    ensures
        lines.deep_view() == configuration_failure_lines(cause@),
{
    let mut lines: Vec<String> = Vec::new();
    lines.push(labelled("Failed to configure the DNS client: ", cause));
    assert(lines.deep_view() =~= configuration_failure_lines(cause@));
    lines
}

/// The lines of [`submission_failure_lines`].
pub fn report_submission_failure(cause: &str) -> (lines: Vec<String>)
    ensures
        lines.deep_view() == submission_failure_lines(cause@),
{
    let mut lines: Vec<String> = Vec::new();
    lines.push(labelled("change resource record sets: ", cause));
    assert(lines.deep_view() =~= submission_failure_lines(cause@));
    lines
}

/// The lines of [`out_of_turn_lines`].
pub fn report_out_of_turn() -> (lines: Vec<String>)
    ensures
        lines.deep_view() == out_of_turn_lines(),
{
    let mut lines: Vec<String> = Vec::new();
    lines.push("Error: event out of turn".to_owned());
    assert(lines.deep_view() =~= out_of_turn_lines());
    lines
}

/// The lines of [`usage_lines`] for the flags in `missing`.
pub fn report_usage(missing: &Vec<Flag>) -> (lines: Vec<String>)
    ensures
        lines.deep_view() == usage_lines(missing@),
{
    let mut lines: Vec<String> = Vec::new();
    lines.push("error: the following required arguments were not provided:".to_owned());
    let mut i: usize = 0;
    while i < missing.len()
        invariant
            i <= missing.len(),
            lines.len() == i + 1,
            lines.deep_view() =~= usage_lines(missing@).subrange(0, i + 1),
        decreases missing.len() - i,
    {
        lines.push(labelled("  ", missing[i].usage()));
        i = i + 1;
    }
    assert(usage_lines(missing@).subrange(0, i + 1) =~= usage_lines(missing@));
    lines
}

} // verus!
