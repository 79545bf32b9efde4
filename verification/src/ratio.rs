use vstd::prelude::*;

verus! {

/// An exact nonnegative rational scalar, `num / den`.
///
/// Hyperparameters such as the learning rate and the momentum or
/// interpolation coefficient are held in this form so that the coefficient
/// arithmetic of the update rules (complements such as `1 - beta`, and the
/// per-step averaging weight `1 / step_t`) is exact and verifiable; the
/// quotient is only evaluated in the tensor engine's element type at the
/// moment a tensor is scaled by it.
#[derive(Clone, Copy, PartialEq, Eq, Structural, Debug)]
pub struct Ratio {
    pub num: u32,
    pub den: u32,
}

} // verus!
