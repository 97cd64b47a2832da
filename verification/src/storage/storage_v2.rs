//! Storage of the generic data vault (API v2).

pub mod types;
