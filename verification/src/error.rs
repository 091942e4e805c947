//! The kinds of failure that the bundler reports.
use vstd::prelude::*;

verus! {

/// Why a call could not be completed.
#[derive(Clone, Copy, Debug, PartialEq, Eq, Structural)]
pub enum BundlerError {
    /// Required configuration is missing or invalid.
    Configuration,
    /// The execution node could not be reached or did not answer.
    Connectivity,
    /// No signed transaction could be produced.
    Signing,
    /// The relay rejected the bundle, or its answer could not be read.
    Relay,
    /// The request is malformed or came out of turn.
    Protocol,
}

} // verus!
