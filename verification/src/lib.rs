//! Connection lifecycle and kill-switch enforcement for a single VPN tunnel.
//!
//! The crate keeps the intended connection state and the observed system
//! state reconciled, decides when all non-tunnel traffic has to be blocked,
//! and frames the record that lets enforcement survive a restart.

pub mod cli;
pub mod constants;
pub mod controller;
pub mod downloader;
pub mod engine;
pub mod error;
pub mod event;
pub mod guarantees;
pub mod importer;
pub mod machine;
pub mod report;
pub mod scanner;
pub mod state;
pub mod store;
pub mod telemetry;
pub mod text;
pub mod ui;
pub mod vpn;
