//! Step-driven services: the contract a multi-service bundle runs against.
//!
//! A bundle composes several independently steppable services under one
//! start/stop pair, running each on its own task: the task loops the
//! service's `step` and treats a fatal error as the signal to break its
//! loop. The looping and task plumbing are the embedding's; these are the
//! capability contracts its components implement.

use vstd::prelude::*;

verus! {

/// An error a step can report, telling fatal conditions apart from ones the
/// loop may step past.
pub trait StepError {
    /// Whether this error should end the stepping loop.
    fn is_exit(&self) -> bool;
}

/// A service driven by repeated steps rather than by messages.
pub trait AsyncStepService {
    /// The error a step reports.
    type Error: StepError;

    /// Performs one unit of the service's work.
    fn step(&mut self) -> Result<(), Self::Error>;
}

} // verus!
