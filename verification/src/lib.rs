//! Detection pipeline for newly created fungible tokens on a launch platform.
//!
//! The library holds the verified logic of the pipeline: classification of
//! program-log lines, the retry policy of the transaction fetcher, the
//! dual-format mint-account decoder, the creation-event parser, and the
//! listener's supervisory state machine.  Network and process I/O live
//! outside the library and hand plain values in.

pub mod classifier;
pub mod config;
pub mod fetcher;
pub mod listener;
pub mod mint;
pub mod models;
pub mod parser;
pub mod processor;
pub mod strutil;
