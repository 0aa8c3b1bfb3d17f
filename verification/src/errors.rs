//! Error kinds of the runtime.
//!
//! Resolution and connection errors are returned to the immediate caller and
//! never retried inside the core; registration partial failure is surfaced as
//! a value, not used for control flow.

use vstd::prelude::*;

verus! {

/// Every failure the core can report.
#[derive(Clone, Copy, PartialEq, Eq, Structural, Debug)]
pub enum Error {
    /// The module identifier is already bound to a different descriptor.
    AlreadyRegistered,
    /// A direct path was requested for a module that is not locally hosted.
    NotLocallyAvailable,
    /// The remote registry has no address for the module on the requested
    /// transport.
    ServiceUnresolvable,
    /// A connection to a resolved address could not be established.
    ConnectionFailed,
    /// Automatic selection exhausted every configured transport.
    NoProtocolAvailable,
    /// The caller supplied no constructor for the resolved protocol.
    ProtocolNotImplemented,
    /// A protocol server rejected handler registration.
    HandlerRegistrationFailed,
    /// A module's start hook failed.
    ModuleStartFailed,
    /// A module's stop hook failed.
    ModuleStopFailed,
}

} // verus!
