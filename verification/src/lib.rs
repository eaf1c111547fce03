//! Verified core of a blockchain address monitor.
//!
//! The library holds the logic of a small service that subscribes to new
//! block headers, fetches each block's full transaction list, and reports
//! the transactions whose recipient matches a watched address. Everything
//! that decides or computes lives here, with contracts; the surrounding
//! process (argument intake, the websocket connection, the async loop,
//! printing) hands plain values in and takes plain values back.

pub mod chain;
pub mod config;
pub mod decimal;
pub mod pipeline;
pub mod report;
