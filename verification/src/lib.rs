//! Core logic of a remote-control relay for two named streaming-server
//! instances: location resolution, command-to-HTTP-action planning,
//! response normalization and error classification.
//!
//! The chat-platform session, the actual HTTP transport and the process
//! bootstrap live outside this library; they hand in a parsed command
//! request and carry out the relay plan this library produces.

pub mod command;
pub mod config;
pub mod dispatch;
pub mod error;
pub mod location;
pub mod relay;
pub mod text;
