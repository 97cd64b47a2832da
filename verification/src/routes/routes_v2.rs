//! The generic data vault API (v2).

pub mod data;
