//! Ingestion core of a multi-network risk-reporting indexer: resumable
//! cursors, page planning, decoding of raw on-chain activity into uniform
//! domain events, and the decisions of the polling loop.

pub mod abi;
pub mod client;
pub mod config;
pub mod cursor;
pub mod driver;
pub mod error;
pub mod evm;
pub mod fetch;
pub mod job;
pub mod laws;
pub mod model;
pub mod program;
pub mod solana;
