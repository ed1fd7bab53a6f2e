//! A client library for a signed-note relay protocol: key handling, canonical
//! event serialization and identifiers, signing and checking of events, and
//! the bookkeeping of a pool of relays.

pub mod bytes;
pub mod hex;
pub mod json;
pub mod error;
pub mod crypto;
pub mod keys;
pub mod event;
pub mod pool;
pub mod publish;
pub mod merge;
pub mod filter;
pub mod frames;
