//! The network of signals: named streams that carry signals by level of
//! authority.

pub mod client;
