//! The live path: transactions arrive from the bus, one message each.

pub mod transaction_processor;
pub mod transaction_subscriber_service;
