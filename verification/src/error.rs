//! The typed errors a command can end in. They are produced at the point
//! of detection and propagated unchanged to the command boundary; the
//! caller renders them for the invoking user.

use vstd::prelude::*;
use crate::config::ConfigKey;

verus! {

/// Everything that can go wrong while processing one command.
#[derive(Debug)]
pub enum CoreError {
    /// A required configuration key is absent; fatal for the current command.
    ConfigMissing(ConfigKey),
    /// The supplied location string matches neither known display literal.
    /// Carries the raw input for diagnostics.
    InvalidLocation(String),
    /// A network-level failure reaching the target server, with the
    /// transport's own description.
    RelayTransport(String),
    /// The target server answered with a non-2xx status; carries the status
    /// and the raw response body as diagnostic text.
    RelayStatus(u16, String),
}

} // verus!
