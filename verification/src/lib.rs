//! Verified core of a chat-operated game-server controller.
//!
//! The library holds the decision logic: who may run a privileged command,
//! which shell invocation a lifecycle action maps to, how a status-query
//! outcome is classified, and how every outcome is rendered for display.
//! The surrounding process — the chat gateway, the process spawner, the
//! datagram exchange — lives outside and hands the library plain values.
use vstd::prelude::*;

pub mod config;
pub mod format;
pub mod host;
pub mod permissions;
pub mod process;
pub mod status;
pub mod text;

verus! {

/// Shared bot state: the configuration, loaded once and then only read.
pub struct Data {
    pub config: std::sync::Arc<config::Config>,
}

} // verus!
