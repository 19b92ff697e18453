//! The build profile and the logging sink it asks for.

use vstd::prelude::*;
use crate::relay::Severity;

verus! {

/// The configuration the application was built in.
#[derive(Clone, Copy, Debug, PartialEq, Eq, Structural)]
pub enum BuildProfile {
    /// A development build, with verbose diagnostics.
    Development,
    /// A production build, without any extra diagnostics.
    Production,
}

impl BuildProfile {
    /// The least severity that the logging sink of this profile lets through,
    /// or `None` where the profile installs no sink at all.
    pub open spec fn sink(self) -> Option<Severity> {
        match self {
            BuildProfile::Development => Some(Severity::Info),
            BuildProfile::Production => None,
        }
    }

    /// Decides which logging sink to install at start-up: one filtered at
    /// informational severity in a development build, none in production.
    pub fn sink_level(&self) -> (level: Option<Severity>)
        ensures
            level == self.sink(),
            *self is Production ==> level is None,
            *self is Development ==> level == Some(Severity::Info),
    {
        match self {
            BuildProfile::Development => Some(Severity::Info),
            BuildProfile::Production => None,
        }
    }
}

} // verus!
