//! Request validation, ban-key construction and response decisions of a
//! firewall API service, verified with Verus.
//!
//! The service answers whether a target (an IP address and/or a user agent)
//! is banned, and forwards unban and dry-run requests to a set of executors.
//! This crate holds the decisions the service makes; the network and storage
//! work is done by the caller, which hands the outcomes back as plain values.

pub mod api;
pub mod ban_checker;
pub mod error;
pub mod executor;
pub mod executor_client;
pub mod http_error;
pub mod model;
pub mod server;
pub mod status;
pub mod unban;
pub mod unbanner;
