//! Startup-time failures. Everything that can stop the agent before it starts
//! monitoring is an [`Error`]; per-round plugin faults are contained at the
//! task level and never become one.

use vstd::prelude::*;
use crate::keys::PluginKey;

verus! {

/// A fatal startup failure: configuration loading, plugin construction or
/// binding. Context wrappers record which section and which file a failure
/// came from, so operators see the exact origin.
#[derive(Debug)]
pub enum Error {
    /// A section's shape does not match the expected `{ type, ... }` form.
    Decode,
    /// The configuration text is syntactically invalid; carries the
    /// underlying syntax errors.
    Parse { messages: Vec<String> },
    /// A `kind:type` token that the key grammar rejects.
    KeySyntax { token: String },
    /// A resolved key has no matching registry entry.
    MissingPlugin { key: PluginKey },
    /// A failure wrapped with the name of the configuration section it
    /// originated in.
    Section { name: String, cause: Box<Error> },
    /// A failure wrapped with the path of the configuration file it
    /// originated in.
    File { path: String, cause: Box<Error> },
    /// A plugin-specific construction or bind failure, wrapped with the
    /// plugin's identity.
    Plugin { key: PluginKey, detail: String },
}

impl Error {
    /// The failure one level beneath a context wrapper, if any.
    pub fn cause(&self) -> (r: Option<&Error>)
        ensures
            match self {
                Error::Section { cause, .. } => r == Some(&**cause),
                Error::File { cause, .. } => r == Some(&**cause),
                _ => r is None,
            },
    {
        match self {
            Error::Section { cause, .. } => Some(&**cause),
            Error::File { cause, .. } => Some(&**cause),
            _ => None,
        }
    }
}

} // verus!
