//! Entry validation and holding for a node of a distributed hash table.

pub mod address;
pub mod aspect;
pub mod chain_header;
pub mod dispatch;
pub mod entry;
pub mod error;
pub mod fetch;
pub mod get_validation_package;
pub mod log;
pub mod network;
pub mod pending;
pub mod preparation;
pub mod scheduled_jobs;
pub mod state_dump;
pub mod text;
pub mod validation;
pub mod validation_data;
