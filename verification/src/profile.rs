//! Build profiles and the logging they ask for.

use vstd::prelude::*;

verus! {

/// The configuration the program was built in.
#[derive(Clone, Copy, Debug, PartialEq, Eq, Structural)]
pub enum Profile {
    /// A development build: diagnostics are switched on.
    Debug,
    /// A production build: no diagnostics are registered.
    Release,
}

/// How much a logging capability lets through, from nothing to everything.
#[derive(Clone, Copy, Debug, PartialEq, Eq, Structural)]
pub enum Verbosity {
    Off,
    Error,
    Warn,
    Info,
    Debug,
    Trace,
}

impl Profile {
    /// The verbosity at which this profile registers logging, if it registers
    /// any: informational in a debug build, none at all in a release build.
    pub open spec fn spec_logging(self) -> Option<Verbosity> {
        match self {
            Profile::Debug => Some(Verbosity::Info),
            Profile::Release => None,
        }
    }

    /// The profile of a build with debug assertions switched on or off.
    pub fn from_debug_assertions(enabled: bool) -> (profile: Profile)
        ensures
            profile == (if enabled { Profile::Debug } else { Profile::Release }),
    {
        if enabled {
            Profile::Debug
        } else {
            Profile::Release
        }
    }

    /// The verbosity at which this profile registers logging, or `None` where
    /// it registers none.
    #[verifier::when_used_as_spec(spec_logging)]
    pub fn logging(self) -> (level: Option<Verbosity>)
        ensures
            level == self.spec_logging(),
    {
        match self {
            Profile::Debug => Some(Verbosity::Info),
            Profile::Release => None,
        }
    }
}

} // verus!
