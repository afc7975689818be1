//! Errors of the library.

use vstd::prelude::*;

verus! {

/// A session was set up with values it cannot run on.
#[derive(Debug, Clone, Copy, PartialEq, Eq, Structural)]
pub enum ConfigError {
    /// An oscillator was given a period of zero.
    ZeroPeriod,
    /// An oscillator was given a rate of zero beats per minute.
    ZeroRate,
    /// A bank of cue samples does not hold exactly one sample per identity.
    IncompleteBank,
}

/// The cue dispatcher was handed an event in a way it cannot process.
#[derive(Debug, Clone, Copy, PartialEq, Eq, Structural)]
pub enum DispatchError {
    /// The cue of the event's identity is not in the cache, and none was handed in.
    ResourceMissing,
    /// The cue of the event's identity is in the cache, and another was handed in.
    ResourceAlreadyLoaded,
}

} // verus!
