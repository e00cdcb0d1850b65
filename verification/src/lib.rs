//! Verified core of a Kubernetes device plugin that advertises a fixed set of
//! accelerator devices through CDI device references.
//!
//! The crate holds the decisions of the plugin: how the inventory is built and
//! searched, what each RPC answers, and the state machines that keep the
//! serving endpoint registered and shut it down. Sockets, timers, tasks and
//! the gRPC transport live with the caller, which performs the actions that
//! the state machines ask for and reports what happened.

pub mod config;
pub mod coordinator;
pub mod device;
pub mod discovery;
pub mod endpoint;
pub mod inventory;
pub mod registration;
pub mod service;
pub mod status;
pub mod supervisor;
pub mod text;
pub mod watch;
