//! Shortcuts to SSH servers, and the device-authorization login that
//! obtains an access token for the companion service.
//!
//! The library holds the decisions: what to request, how to read a reply,
//! when to wait, when to give up, what to persist. Network, disk, terminal
//! and child processes belong to the program that drives it.

pub mod auth;
pub mod cli;
pub mod commands;
pub mod config;
pub mod models;
pub mod paths;
pub mod process;
pub mod ssh;
pub mod text;
pub mod utils;
