//! Chain monitor core of a two-party CFD trading daemon on a UTXO chain
//! with Electrum-style indexer access.
//!
//! The library keeps per-contract watch lists across each contract's
//! lifecycle, decides from indexer script histories which watches have
//! fired, emits each lifecycle event at most once, folds a contract's event
//! log into the record that drives monitoring, classifies broadcast
//! rejections so that "already on chain" counts as success, and bounds what
//! a batched history fetch may return.  The I/O around it — the indexer
//! client, worker threads, timers and metrics — lives with the embedding
//! program; every decision here is verified.

pub mod ids;
pub mod status;
pub mod engine;
pub mod projection;
pub mod broadcaster;
pub mod fetcher;
pub mod monitor;
pub mod ping;
