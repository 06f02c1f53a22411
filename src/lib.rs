pub mod broker;
pub mod config;
pub mod errors;
pub mod ipc;
pub mod payload;
pub mod pending;
pub mod supervisor;
pub mod wire;
