//! Verified core of a command-line client for a Docker-management GraphQL
//! server: named server profiles with a default pointer, endpoint resolution
//! from CLI flags, environment values and stored profiles, response-envelope
//! handling, and container-name resolution and display.
//!
//! File and network access live outside this crate; every function here works
//! on plain values and carries a contract.

pub mod client;
pub mod commands;
pub mod config;
pub mod docker;
pub mod error;
pub mod text;
