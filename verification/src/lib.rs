//! A resumable change-feed layer for a document-database client driver.
//!
//! The crate models the driver's values (BSON-like documents) as plain data,
//! builds the aggregation pipeline that opens or resumes a feed, and drives
//! the feed's buffer / resume-token state machine. Network transport is left
//! to the embedding application; every decision the feed makes is verified.

pub mod document;
pub mod error;
pub mod change_stream;
pub mod pipelines;
pub mod common;
pub mod wire_protocol;
pub mod encoding;
pub mod command;
pub mod connstring;
pub mod ssl;
pub mod pool;
pub mod r2d2_mongo;
