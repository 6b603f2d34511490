//! The startup decision: what fix the service begins with.
//!
//! An external loader reads the optional configuration file and parses it;
//! this module decides what follows. A missing file is tolerated and yields
//! the all-default fix; a file that exists but cannot be read, or that is
//! malformed, aborts startup — the bus name must never be registered after
//! either.

use vstd::prelude::*;

use crate::errors::Error;
use crate::fix::{empty_fix_view, PositionFix};
use crate::service::GeoService;
use crate::paths::Target;

verus! {

/// What the external configuration loader found.
pub enum ConfigSource {
    /// No configuration file exists.
    Missing,
    /// The file exists but reading it failed.
    Unreadable,
    /// The file was read and parsed into a fix.
    Loaded(PositionFix),
    /// The file was read but does not parse.
    Malformed,
}

/// The fix the service starts with: the loaded one, all defaults when no
/// file exists, and a fatal startup error otherwise.
pub fn initial_fix(source: ConfigSource) -> (r: Result<PositionFix, Error>)
    ensures
        match source {
            ConfigSource::Missing => r matches Ok(f) && f@ == empty_fix_view(),
            ConfigSource::Unreadable => r == Err::<PositionFix, Error>(Error::StartupIo),
            ConfigSource::Loaded(f0) => r matches Ok(f) && f@ == f0@,
            ConfigSource::Malformed => r == Err::<PositionFix, Error>(Error::StartupConfig),
        },
{
    match source {
        ConfigSource::Missing => Ok(PositionFix::empty()),
        ConfigSource::Unreadable => Err(Error::StartupIo),
        ConfigSource::Loaded(f) => Ok(f),
        ConfigSource::Malformed => Err(Error::StartupConfig),
    }
}

/// Builds the service from what the loader found. On any startup error the
/// caller must abort before serving the bus, so no name is ever registered
/// for a service that failed here.
pub fn boot(source: ConfigSource) -> (r: Result<GeoService, Error>)
    ensures
        match r {
            Ok(s) => {
                &&& s.wf()
                &&& s.registry.next_id == 0
                &&& s.registry.sessions@.len() == 0
                &&& forall|t: Target| s.router.registered(t) <==> t == Target::Manager
                &&& match source {
                    ConfigSource::Missing => s.store@ == empty_fix_view(),
                    ConfigSource::Loaded(f0) => s.store@ == f0@,
                    _ => false,
                }
            },
            Err(e) => {
                &&& source is Unreadable || source is Malformed
                &&& (source is Unreadable ==> e == Error::StartupIo)
                &&& (source is Malformed ==> e == Error::StartupConfig)
            },
        },
{
    let fix = match initial_fix(source) {
        Err(e) => {
            return Err(e);
        },
        Ok(f) => f,
    };
    Ok(GeoService::new(fix))
}

} // verus!
