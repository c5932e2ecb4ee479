//! Verified core of a small S3 bucket browser: the state machine behind the
//! desktop window, the bookkeeping of a paginated object listing, and the
//! texts that the tools show.  Network, file and window work is left to the
//! caller, which feeds results back as plain values.

pub mod error;
pub mod listing;
pub mod text;
pub mod paths;
pub mod browser;
pub mod laws;
pub mod commands;
