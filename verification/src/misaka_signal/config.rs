//! The settings of the signal service.

use vstd::prelude::*;

verus! {

/// The settings of the signal service.
#[derive(Debug, Clone, PartialEq, Eq)]
pub struct Config {
    pub nats_url: String,
    pub topic: String,
    pub grpc_server_url: String,
    pub telepath_name: String,
    pub sender_agent: String,
    /// The level of authority of the signals, as `LV0` to `LV5`.
    pub authority_level: String,
}

} // verus!
