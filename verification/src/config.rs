use crate::errors::ConfigError;
use vstd::prelude::*;

verus! {

/// The immutable startup snapshot: seconds-per-tick expressed in whole
/// milliseconds, and the capacity bounds that the world enforces on
/// insertion.  A configuration is loaded once, before the world is built,
/// and never mutated.
#[derive(Clone, Copy, PartialEq, Eq, Debug)]
pub struct Config {
    /// Length of one tick in milliseconds; always positive.
    pub tick_rate_ms: u64,
    /// Largest number of entities the world accepts.
    pub max_entities: u32,
    /// Largest number of scheduled actions the world accepts.
    pub max_actions: u32,
}

impl Config {
    /// The configuration invariant: the tick rate is positive.
    pub open spec fn wf(&self) -> bool {
        self.tick_rate_ms > 0
    }

    /// Validates the raw values read from the configuration file.  A
    /// non-positive tick rate is out of range and is rejected, so that a
    /// loader can abort before the loop is entered.
    pub fn new(tick_rate_ms: u64, max_entities: u32, max_actions: u32) -> (r: Result<
        Config,
        ConfigError,
    >)
        ensures
            tick_rate_ms > 0 ==> r == Ok::<Config, ConfigError>(
                Config { tick_rate_ms, max_entities, max_actions },
            ),
            tick_rate_ms == 0 ==> r == Err::<Config, ConfigError>(ConfigError::NonPositiveTickRate),
            r is Ok ==> r->Ok_0.wf(),
    {
        if tick_rate_ms == 0 {
            Err(ConfigError::NonPositiveTickRate)
        } else {
            Ok(Config { tick_rate_ms, max_entities, max_actions })
        }
    }
}

} // verus!
