//! Tenant management models.

pub mod types;
