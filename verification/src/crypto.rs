//! Key-management configuration.

pub mod keymanager;
