//! A minimal real-time position relay: the latest known position
//! (latitude and longitude, carried as the 64-bit little-endian bit
//! patterns read from the wire) and a free-text label, kept in a
//! concurrency-safe store, fed by a byte-oriented ingest protocol and
//! rendered as a JSON record for periodic broadcast.

pub mod codec;
pub mod json;
pub mod record;
pub mod state;
