//! The service's failure taxonomy.
//!
//! Startup failures abort the process before the bus is served; per-request
//! failures are returned to the caller as a protocol-level reply and the
//! dispatch loop continues. `is_fatal` encodes that propagation policy.

use vstd::prelude::*;

verus! {

/// Every way an operation of this service can fail.
#[derive(PartialEq, Eq, Structural, Clone, Copy, Debug)]
pub enum Error {
    /// The configuration file exists but could not be read. Fatal.
    StartupIo,
    /// The configuration file was read but is malformed. Fatal.
    StartupConfig,
    /// The bus connection or name registration failed. Fatal.
    Transport,
    /// A request addressed a path that is not registered. Recovered.
    NoSuchObject,
    /// A request path has no recognised shape. Recovered.
    InvalidPath,
    /// A request carried no caller identity. Recovered.
    NoSender,
    /// The session identity counter would wrap. Fatal: identities are
    /// never reused.
    IdentitySpaceExhausted,
    /// The shared positional fix could not be read because its external
    /// holder was torn down. Recovered; the store of this library always
    /// reads, so only the shell can raise it.
    StoreUnavailable,
    /// A path was registered twice. Recovered.
    DuplicatePath,
}

impl Error {
    /// Whether this failure must abort the service rather than be returned
    /// to the caller of one request.
    pub fn is_fatal(&self) -> (r: bool)
        ensures
            r == matches!(*self,
                Error::StartupIo
                | Error::StartupConfig
                | Error::Transport
                | Error::IdentitySpaceExhausted),
    {
        matches!(*self,
            Error::StartupIo
            | Error::StartupConfig
            | Error::Transport
            | Error::IdentitySpaceExhausted)
    }
}

} // verus!
