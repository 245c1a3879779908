//! The ways in which the setup of a pipeline fails.

use vstd::prelude::*;

verus! {

/// Why a pipeline could not be set up. Nothing is retried: the first failure
/// ends the attempt.
#[derive(Clone, Copy, Debug, PartialEq, Eq, Structural)]
pub enum Error {
    /// The engine could not be initialized.
    EngineInit,
    /// The engine could not create the pipeline or one of its elements.
    ElementCreation,
    /// The elements could not be added to the pipeline or linked to a chain.
    Link,
    /// The source element refused its capability descriptor.
    Caps,
    /// The engine rejected the transition to the running state.
    StateChange,
    /// The stream's rate code is none of the known codes.
    UnsupportedRate(u8),
}

} // verus!
