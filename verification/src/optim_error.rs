use vstd::prelude::*;

verus! {

/// Why a construction or a step failed.  Each variant carries the underlying
/// engine error; the variant records at which stage it arose.
#[derive(Debug)]
pub enum OptimError {
    /// An auxiliary-state tensor could not be allocated at construction time.
    Allocation(candle_core::Error),
    /// Tensor arithmetic failed during a step (for instance a shape mismatch
    /// between a supplied gradient and its parameter).  Fatal to that step,
    /// not to the optimizer.
    Arithmetic(candle_core::Error),
    /// The loss could not be differentiated.  Surfaced by `backward_step`
    /// before any state is touched.
    Differentiation(candle_core::Error),
}

} // verus!
