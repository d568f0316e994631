//! The archive path: units of compressed blocks, found in a directory and
//! processed once each.

pub mod block_parser_service;
pub mod file_processor;
pub mod file_scanner;
pub mod processed_tracker;
