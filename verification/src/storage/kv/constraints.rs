//! Unique constraints enforced in Redis on the KV write path: each table keeps a Redis
//! set of its unique values, and a write whose values are already in the set violates
//! a constraint.

use vstd::prelude::*;

use crate::text::concat;

verus! {

/// The reply of `SADD`: whether the members were added to the set.
#[derive(Debug, Clone, Copy, PartialEq, Eq, Structural)]
pub enum SaddReply {
    KeySet,
    KeyNotSet,
}

/// A unique value is already taken.
#[derive(Debug, Clone, Copy, PartialEq, Eq, Structural)]
pub struct UniqueConstraintViolation;

/// The Redis set holding the unique values of `table_name`.
pub fn unique_constraint_set_key(table_name: &str) -> (r: String)
    ensures
        r@ == "unique_constraint:"@ + table_name@,
{
    concat("unique_constraint:", table_name)
}

/// The constraint check passes exactly when `SADD` added the values.
pub fn check_for_constraints(reply: SaddReply) -> (r: Result<(), UniqueConstraintViolation>)
    ensures
        reply == SaddReply::KeySet ==> r is Ok,
        reply == SaddReply::KeyNotSet ==> r is Err,
{
    match reply {
        SaddReply::KeySet => Ok(()),
        SaddReply::KeyNotSet => Err(UniqueConstraintViolation),
    }
}

} // verus!
