//! Exchange clients: symbol normalization, order intents, balance snapshots,
//! per-exchange adapters and a combined client that routes each symbol to the
//! one backend that owns it.

pub mod aggregate;
pub mod balance;
pub mod binance_client;
pub mod combined;
pub mod kraken_client;
pub mod observer;
pub mod order;
pub mod scheduler;
pub mod symbol;
