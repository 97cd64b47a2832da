//! The drainer stream entry that replays a KV write into PostgreSQL.

use vstd::prelude::*;

use super::partition_key::{partition_key_text, shard_key_of, shard_key_text, PartitionKey};
use crate::text::{signed_decimal_string, signed_decimal_text, to_owned_string};

verus! {

/// The kind of database write a drainer entry replays.
#[derive(Debug, Clone, Copy, PartialEq, Eq, Structural)]
pub enum DatabaseOperation {
    Insert,
    Update,
}

impl DatabaseOperation {
    /// The snake_case name of the operation.
    pub fn as_str(&self) -> (r: &'static str)
        ensures
            r == (match self {
                DatabaseOperation::Insert => "insert",
                DatabaseOperation::Update => "update",
            }),
    {
        match self {
            DatabaseOperation::Insert => "insert",
            DatabaseOperation::Update => "update",
        }
    }
}

/// Wraps `time::OffsetDateTime::now_utc().unix_timestamp()`: the current time in whole
/// seconds since the Unix epoch.
#[verifier::external_body]
fn current_unix_seconds() -> (r: i64) {
    time::OffsetDateTime::now_utc().unix_timestamp()
}

/// The fields of a drainer stream entry, in order: the serialized query, the global id
/// (the resource's partition key), the request id, and the push time in Unix seconds.
pub fn drainer_entry_fields(
    query: String,
    global_id: String,
    request_id: String,
    pushed_at: i64,
) -> (r: Vec<(&'static str, String)>)
    ensures
        r@.len() == 4,
        r@[0].0 == "query" && r@[0].1 == query,
        r@[1].0 == "global_id" && r@[1].1 == global_id,
        r@[2].0 == "request_id" && r@[2].1 == request_id,
        r@[3].0 == "pushed_at" && r@[3].1@ == signed_decimal_text(pushed_at as int),
{
    let pushed_at_text = signed_decimal_string(pushed_at);
    let mut fields: Vec<(&'static str, String)> = Vec::new();
    fields.push(("query", query));
    fields.push(("global_id", global_id));
    fields.push(("request_id", request_id));
    fields.push(("pushed_at", pushed_at_text));
    fields
}

/// The fields of a drainer stream entry pushed now; see [`drainer_entry_fields`].
pub fn to_field_value_pairs(query: String, request_id: String, global_id: String) -> (r: Vec<
    (&'static str, String),
>)
    ensures
        r@.len() == 4,
        r@[0].0 == "query" && r@[0].1 == query,
        r@[1].0 == "global_id" && r@[1].1 == global_id,
        r@[2].0 == "request_id" && r@[2].1 == request_id,
        r@[3].0 == "pushed_at" && exists|t: i64| r@[3].1@ == signed_decimal_text(t as int),
{
    let pushed_at = current_unix_seconds();
    drainer_entry_fields(query, global_id, request_id, pushed_at)
}

/// The request id of every drainer entry: log-only and empty, since requests are not
/// threaded into the drainer; the field is kept for the entry format.
pub const DRAINER_REQUEST_ID: &'static str = "";

/// The drainer entry of a KV write under `key`: the shard key that names the stream it
/// is pushed to, and its fields: the serialized query, the key's text as global id, an
/// empty request id and the push time.
pub fn drainer_entry_for(query: String, key: PartitionKey<'_>, num_partitions: u8) -> (r: (
    String,
    Vec<(&'static str, String)>,
))
    requires
        num_partitions > 0,
    ensures
        r.0@ == shard_key_text(key, num_partitions),
        r.1@.len() == 4,
        r.1@[0].0 == "query" && r.1@[0].1 == query,
        r.1@[1].0 == "global_id" && r.1@[1].1@ == partition_key_text(key),
        r.1@[2].0 == "request_id" && r.1@[2].1@ == ""@,
        r.1@[3].0 == "pushed_at" && exists|t: i64| r.1@[3].1@ == signed_decimal_text(t as int),
{
    let global_id = key.to_string();
    let shard_key = shard_key_of(key, num_partitions);
    let fields = to_field_value_pairs(query, to_owned_string(DRAINER_REQUEST_ID), global_id);
    (shard_key, fields)
}

} // verus!
