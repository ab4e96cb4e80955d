//! Provisioning of accounts and spaces on a Tracim server: the values that
//! the requests carry, and the decisions between the requests. The requests
//! themselves are the caller's.

pub mod account;
pub mod client;
pub mod config;
pub mod dealer;
pub mod remote;
pub mod request;
pub mod types;
