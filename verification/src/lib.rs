//! Chunked upload core: receives bounded chunks of large binary assets,
//! tracks upload sessions, assembles completed uploads exactly once, and
//! accounts for consumable capacity across a pool of storage volumes.

pub mod api;
pub mod auth;
pub mod config;
pub mod diskscan;
pub mod finalize;
pub mod laws;
pub mod naming;
pub mod receiver;
pub mod session;
pub mod store;
pub mod volume;
