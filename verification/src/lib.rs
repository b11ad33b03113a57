//! Verified retrieval-and-normalization core for a market-data REST client.
//!
//! The crate covers the pieces of such a client that carry real invariants:
//! rate limiting, retry classification with exponential backoff, response
//! decoding (status handling, gzip, JSON), two pagination disciplines,
//! timestamp canonicalization with window validation, and compact encoding
//! of condition codes and trade identifiers. Network, clock and filesystem
//! work stays outside; the functions here take and return plain values.

pub mod codec;
pub mod decode;
pub mod error;
pub mod limiter;
pub mod models;
pub mod paginate;
pub mod params;
pub mod retry;
pub mod text;
pub mod timestamp;
pub mod urls;
