//! Building blocks shared by every part of the pipeline.

pub mod async_pool;
pub mod base58;
pub mod clock;
pub mod config_value;
pub mod slot_meta;
pub mod text;
pub mod transaction;
pub mod zstd_frame;
