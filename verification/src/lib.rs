//! Verified core of a time-series export service.
//!
//! Event records (name, start, end, group, thread) read from a relational
//! store are sanitized, transcoded into a semicolon-delimited wire format,
//! and spooled into a self-cleaning temporary file whose lifecycle is
//! tracked by an explicit state machine.  The store access and the HTTP
//! surface are unverified shells around this library; everything that
//! decides or computes lives here, with contracts.

pub mod database;
pub mod error;
pub mod export;
pub mod handlers;
pub mod options;
pub mod spool;
pub mod text;
pub mod timestamp;
pub mod transcode;

pub use crate::error::DatabaseError;
pub use crate::error::DatabaseResult;
