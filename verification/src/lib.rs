//! Ingestion and archival of PumpFun events from parsed Solana transactions:
//! pairing event instructions with the actions that produced them, batching the
//! resulting rows, tracking processed archive units and reconciling two stores.

pub mod block_parser;
pub mod clickhouse_util;
pub mod common;
pub mod misaka_network;
pub mod misaka_signal;
pub mod mode;
pub mod syncer;
pub mod transaction_subscriber;
