//! The optimizer abstraction: one capability contract over the concrete
//! update rules, so a generic training loop can drive any of them without
//! depending on algorithm internals.  Each implementation's own methods carry
//! the stronger, rule-specific contracts; this trait states what every
//! optimizer owes a driver.

use crate::optim_error::OptimError;
use crate::ratio::Ratio;
use vstd::prelude::*;

verus! {

pub trait Optimizer: Sized {
    /// The base learning rate the next step would apply.
    spec fn lr_spec(&self) -> Ratio;

    /// How many steps this optimizer has taken.
    spec fn steps_spec(&self) -> u32;

    /// Whether the current hyperparameters are acceptable to the update rule.
    spec fn ready_spec(&self) -> bool;

    /// The current base learning rate.  No side effects.
    fn learning_rate(&self) -> (r: Ratio)
        ensures
            r == self.lr_spec(),
    ;

    /// Overwrites the base learning rate; effective from the next step.  A
    /// learning rate is a rational, so its denominator is nonzero.
    fn set_learning_rate(&mut self, lr: Ratio)
        requires
            old(self).ready_spec(),
            lr.den > 0,
        ensures
            final(self).lr_spec() == lr,
            final(self).steps_spec() == old(self).steps_spec(),
            final(self).ready_spec(),
    ;

    /// One step over a gradient store keyed by parameter identity: the
    /// counter advances by one, the hyperparameters survive, and a failure is
    /// an arithmetic failure fatal to the step but not to the optimizer.
    fn step(&mut self, grads: &candle_core::backprop::GradStore) -> (r: Result<(), OptimError>)
        requires
            old(self).steps_spec() < u32::MAX,
            old(self).ready_spec(),
        ensures
            final(self).steps_spec() == old(self).steps_spec() + 1,
            final(self).lr_spec() == old(self).lr_spec(),
            final(self).ready_spec(),
            r matches Err(e) ==> e is Arithmetic,
    ;

    /// Differentiates `loss` and takes one step with the resulting
    /// gradients.  If differentiation fails, nothing is touched.
    fn backward_step(&mut self, loss: &candle_core::Tensor) -> (r: Result<(), OptimError>)
        requires
            old(self).steps_spec() < u32::MAX,
            old(self).ready_spec(),
        ensures
            final(self).lr_spec() == old(self).lr_spec(),
            final(self).ready_spec(),
            r is Ok ==> final(self).steps_spec() == old(self).steps_spec() + 1,
            r matches Err(e) ==> !(e is Allocation),
            r matches Err(e) ==> (e is Differentiation ==> *final(self) == *old(self)),
    ;
}

} // verus!
