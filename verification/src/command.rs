//! The parsed command a caller hands in: one of three kinds, an optional
//! raw location string, and the caller's locale. Constructed per
//! invocation, consumed once, discarded.

use vstd::prelude::*;
use crate::location::Locale;

verus! {

/// The three remote-control commands.
#[derive(Debug)]
pub enum CommandKind {
    /// Query the server's current status.
    Info,
    /// Stop the broadcast.
    Stop,
    /// Switch to the named scene.
    Switch(String),
}

/// One inbound command request.
#[derive(Debug)]
pub struct CommandRequest {
    pub kind: CommandKind,
    /// The raw, user-supplied location name, if any was given.
    pub location: Option<String>,
    /// The locale the display literals are read under.
    pub locale: Locale,
}

} // verus!
