//! The Singer data-interchange protocol: a line-delimited JSON event
//! stream moving structured records between extraction and loading
//! processes.
//!
//! The crate models the protocol's five message variants with a verified
//! wire codec, dispatches decoded events to typed consumer hooks,
//! translates a stream's schema declaration into a columnar schema, and
//! batches records into compressed columnar files.

pub mod json;
pub mod message;
pub mod reader;
pub mod schema;
pub mod batch;
pub mod sink;
pub mod target;
pub mod stats;
pub mod cli;
