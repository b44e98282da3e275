use vstd::prelude::*;

verus! {

/// A recoverable failure of a world-level insertion: the configured
/// capacity bound would be exceeded.  The world is never changed by a
/// rejected insertion.
#[derive(Clone, Copy, PartialEq, Eq, Debug)]
pub enum GameError {
    CapacityExceeded,
}

/// A fatal configuration failure, detected once at startup.
#[derive(Clone, Copy, PartialEq, Eq, Debug)]
pub enum ConfigError {
    NonPositiveTickRate,
}

} // verus!
