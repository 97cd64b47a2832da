//! KV (write-through Redis) framework.

pub mod constraints;
pub mod entity;
pub mod fallback;
pub mod impls;
pub mod partition_key;
pub mod resource;
pub mod scheme;
pub mod serializable_query;
pub mod wrapper;

pub use self::scheme::KvState;
pub use super::scheme::StorageScheme;
