//! Health monitoring of a blockchain node: the decisions that classify a local
//! node as synced, catching up or stopped, and the bookkeeping of the stored
//! health record, each with a machine-checked contract.

pub mod types;
pub mod store;
pub mod clock;
pub mod paths;
pub mod header;
pub mod health;
pub mod cli;
pub mod fetch;
pub mod laws;
