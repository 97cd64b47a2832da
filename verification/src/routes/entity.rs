//! Entity provisioning requests.

use vstd::prelude::*;

use crate::error::ApiError;
use crate::routes::data::types::Status;
use crate::storage::types::Entity;
use crate::text::str_to_chars;
use crate::validations::{is_unicode_whitespace, is_whitespace};

verus! {

/// Request body for `POST /entity`.
#[derive(Debug, Clone, PartialEq, Eq)]
pub struct CreateEntityRequest {
    pub entity_id: String,
}

/// Whether every character of `s` is whitespace (so that it trims to nothing).
pub open spec fn is_blank(s: Seq<char>) -> bool {
    forall|i: int| 0 <= i < s.len() ==> is_unicode_whitespace(#[trigger] s[i])
}

impl CreateEntityRequest {
    /// The entity id must not be empty once surrounding whitespace is trimmed.
    pub fn validate(&self) -> (r: Result<(), ApiError>)
        ensures
            is_blank(self.entity_id@) ==> r == Err::<(), ApiError>(
                ApiError::ValidationError("entity_id must not be empty"),
            ),
            !is_blank(self.entity_id@) ==> r == Ok::<(), ApiError>(()),
    {
        let chars = str_to_chars(self.entity_id.as_str());
        let mut i: usize = 0;
        while i < chars.len()
            invariant
                chars@ == self.entity_id@,
                i <= chars@.len(),
                forall|j: int| 0 <= j < i ==> is_unicode_whitespace(#[trigger] chars@[j]),
            decreases chars@.len() - i,
        {
            if !is_whitespace(chars[i]) {
                return Ok(());
            }
            i = i + 1;
        }
        Err(ApiError::ValidationError("entity_id must not be empty"))
    }
}

/// Response of `POST /entity`: the entity's key-holder record.
#[derive(Debug, Clone, PartialEq, Eq)]
pub struct CreateEntityResponse {
    pub status: Status,
    pub entity_id: String,
    /// UTC nanoseconds since the Unix epoch.
    pub created_at: i128,
}

/// What provisioning an entity does after looking its record up.
#[derive(Debug, Clone, PartialEq, Eq)]
pub enum ProvisionStep {
    /// The record exists: it is returned unchanged.
    Existing(Entity),
    /// No record exists: create one.
    Create,
}

pub open spec fn spec_provision_after_lookup(existing: Option<Entity>) -> ProvisionStep {
    match existing {
        Some(e) => ProvisionStep::Existing(e),
        None => ProvisionStep::Create,
    }
}

/// Provisioning is idempotent: an existing record is kept as it is, only a missing one
/// is created.
pub fn provision_after_lookup(existing: Option<Entity>) -> (r: ProvisionStep)
    ensures
        r == spec_provision_after_lookup(existing),
{
    match existing {
        Some(e) => ProvisionStep::Existing(e),
        None => ProvisionStep::Create,
    }
}

/// The response for the provisioned record.
pub fn create_entity_response(record: Entity) -> (r: CreateEntityResponse)
    ensures
        r == (CreateEntityResponse {
            status: Status::Success,
            entity_id: record.entity_id,
            created_at: record.created_at,
        }),
{
    CreateEntityResponse {
        status: Status::Success,
        entity_id: record.entity_id,
        created_at: record.created_at,
    }
}

/// Provisioning `entity_id` against a table of records keyed by entity id, where a
/// record created now would be `fresh`: the table afterwards and the record returned.
pub open spec fn provision(table: Map<Seq<char>, Entity>, entity_id: Seq<char>, fresh: Entity) -> (
    Map<Seq<char>, Entity>,
    Entity,
) {
    let existing = if table.contains_key(entity_id) {
        Some(table[entity_id])
    } else {
        None
    };
    match spec_provision_after_lookup(existing) {
        ProvisionStep::Existing(e) => (table, e),
        ProvisionStep::Create => (table.insert(entity_id, fresh), fresh),
    }
}

/// Provisioning the same entity twice returns the first record unchanged (same id,
/// same creation time), whatever the second call would have created, and leaves the
/// table as the first call left it.
pub proof fn lemma_provision_idempotent(
    table: Map<Seq<char>, Entity>,
    entity_id: Seq<char>,
    fresh1: Entity,
    fresh2: Entity,
)
    ensures
        ({
            let (t1, r1) = provision(table, entity_id, fresh1);
            let (t2, r2) = provision(t1, entity_id, fresh2);
            r2 == r1 && t2 == t1
        }),
{
}

} // verus!
