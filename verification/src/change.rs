//! The change that one run asks of the DNS provider, as plain data.

use vstd::prelude::*;

verus! {

/// Time-to-live, in seconds, of every record this library writes.
pub const RECORD_TTL_SECONDS: i64 = 300;

/// What the provider is asked to do with a record set.
#[derive(Clone, Copy, Debug, PartialEq, Eq, Structural)]
pub enum ChangeAction {
    Create,
    Delete,
    Upsert,
}

/// The kind of address record a change writes.
#[derive(Clone, Copy, Debug, PartialEq, Eq, Structural)]
pub enum RecordType {
    /// Maps a name to an IPv4 address.
    A,
    /// Maps a name to an IPv6 address.
    Aaaa,
}

/// One change to one record set.
#[derive(Clone, Debug, PartialEq, Eq)]
pub struct RecordChange {
    pub action: ChangeAction,
    pub record_name: String,
    pub record_type: RecordType,
    pub ttl: i64,
    pub values: Vec<String>,
}

/// A batch of changes addressed to one hosted zone.
#[derive(Clone, Debug, PartialEq, Eq)]
pub struct ChangeRequest {
    pub hosted_zone_id: String,
    pub changes: Vec<RecordChange>,
}

/// Mathematical content of a [`RecordChange`].
pub struct RecordChangeView {
    pub action: ChangeAction,
    pub record_name: Seq<char>,
    pub record_type: RecordType,
    pub ttl: int,
    pub values: Seq<Seq<char>>,
}

/// Mathematical content of a [`ChangeRequest`].
pub struct ChangeRequestView {
    pub hosted_zone_id: Seq<char>,
    pub changes: Seq<RecordChangeView>,
}

impl View for RecordChange {
    type V = RecordChangeView;

    open spec fn view(&self) -> RecordChangeView {
        RecordChangeView {
            action: self.action,
            record_name: self.record_name@,
            record_type: self.record_type,
            ttl: self.ttl as int,
            values: self.values.deep_view(),
        }
    }
}

impl View for ChangeRequest {
    type V = ChangeRequestView;

    open spec fn view(&self) -> ChangeRequestView {
        ChangeRequestView {
            hosted_zone_id: self.hosted_zone_id@,
            changes: self.changes@.map_values(|c: RecordChange| c@),
        }
    }
}

/// The single change of a run: point `record_name` at `address` with an
/// A record that lives for [`RECORD_TTL_SECONDS`].
pub open spec fn upsert_change(record_name: Seq<char>, address: Seq<char>) -> RecordChangeView {
    RecordChangeView {
        action: ChangeAction::Upsert,
        record_name,
        record_type: RecordType::A,
        ttl: RECORD_TTL_SECONDS as int,
        values: seq![address],
    }
}

/// The request of a run: exactly one upsert, addressed to `hosted_zone_id`.
/// Zone, name and address are carried as given, character for character.
pub open spec fn upsert_request(
    hosted_zone_id: Seq<char>,
    record_name: Seq<char>,
    address: Seq<char>,
) -> ChangeRequestView {
    ChangeRequestView { hosted_zone_id, changes: seq![upsert_change(record_name, address)] }
}

impl ChangeRequest {
    /// Builds the request that upserts one A record for `record_name` with
    /// `address` as its only value. Nothing is looked up or compared first:
    /// the same arguments always give the same request.
    pub fn upsert(hosted_zone_id: &str, record_name: &str, address: &str) -> (request: ChangeRequest)
        ensures
            request@ == upsert_request(hosted_zone_id@, record_name@, address@),
    {
        let mut values: Vec<String> = Vec::new();
        values.push(address.to_owned());
        let change = RecordChange {
            action: ChangeAction::Upsert,
            record_name: record_name.to_owned(),
            record_type: RecordType::A,
            ttl: RECORD_TTL_SECONDS,
            values,
        };
        let mut changes: Vec<RecordChange> = Vec::new();
        changes.push(change);
        let request = ChangeRequest { hosted_zone_id: hosted_zone_id.to_owned(), changes };
        proof {
            assert(change.values.deep_view() =~= seq![address@]);
            assert(request@.changes =~= seq![upsert_change(record_name@, address@)]);
        }
        request
    }
}

} // verus!
