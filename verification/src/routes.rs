//! Request and response models of the HTTP interface, and the decisions of its handlers.

pub mod data;
pub mod decision_gateway;
pub mod routes_v2;
pub mod entity;
pub mod health;
pub mod key_custodian;
pub mod key_migration;
pub mod migration;
pub mod runtime_config;
pub mod tenant;
