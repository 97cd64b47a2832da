//! Association of a database type with the entity name it is drained under.

use vstd::prelude::*;

verus! {

/// Associates a database type name with an entity type.
pub trait EntityType {
    const ENTITY_TYPE: &'static str;
}

} // verus!
