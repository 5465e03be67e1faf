//! Flush policy: how many events may wait and how long a quiet period lasts.

use vstd::prelude::*;

verus! {

/// Queue length at which a development build flushes.
pub const DEVELOPMENT_MAX_QUEUE_LEN: usize = 1;

/// Queue length at which a production build flushes.
pub const PRODUCTION_MAX_QUEUE_LEN: usize = 10;

/// Debounce delay of a development build, in seconds.
pub const DEVELOPMENT_DEBOUNCE_SECS: u64 = 1;

/// Debounce delay of a production build, in seconds.
pub const PRODUCTION_DEBOUNCE_SECS: u64 = 30;

/// The build profile fixes both policy knobs; neither can be set on its own.
#[derive(Clone, Copy, Debug, PartialEq, Eq, Structural)]
pub enum BuildProfile {
    /// Flush almost every event, after a short delay.
    Development,
    /// Trade latency for fewer requests.
    Production,
}

impl BuildProfile {
    /// Queue length at which an admission flushes at once.
    pub open spec fn spec_max_queue_len(self) -> usize {
        match self {
            BuildProfile::Development => 1,
            BuildProfile::Production => 10,
        }
    }

    /// Quiet period, in seconds, after which a pending flush fires.
    pub open spec fn spec_debounce_secs(self) -> u64 {
        match self {
            BuildProfile::Development => 1,
            BuildProfile::Production => 30,
        }
    }

    #[verifier::when_used_as_spec(spec_max_queue_len)]
    pub fn max_queue_len(self) -> (n: usize)
        ensures
            n == self.spec_max_queue_len(),
    {
        match self {
            BuildProfile::Development => DEVELOPMENT_MAX_QUEUE_LEN,
            BuildProfile::Production => PRODUCTION_MAX_QUEUE_LEN,
        }
    }

    #[verifier::when_used_as_spec(spec_debounce_secs)]
    pub fn debounce_secs(self) -> (d: u64)
        ensures
            d == self.spec_debounce_secs(),
    {
        match self {
            BuildProfile::Development => DEVELOPMENT_DEBOUNCE_SECS,
            BuildProfile::Production => PRODUCTION_DEBOUNCE_SECS,
        }
    }
}

} // verus!
