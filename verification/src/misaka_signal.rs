//! Forwarding of transactions as signals.

pub mod config;
pub mod event_bundle;
pub mod signal_service;
