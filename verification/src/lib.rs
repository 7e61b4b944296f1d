//! Adaptive swap-file pool: decides when swap files are created and destroyed,
//! and sequences the operations that create, activate, deactivate and remove them.

pub mod activation;
pub mod chunk;
pub mod config;
pub mod disk;
pub mod event;
pub mod laws;
pub mod monitor;
pub mod pool;
pub mod status;
pub mod text;
