//! First-order parameter optimizers over candle tensors.
//!
//! Two update rules are provided: classical momentum SGD and Schedule-Free
//! SGD, an averaging/extrapolation scheme that needs no externally supplied
//! learning-rate decay schedule.  The optimizers own one or two auxiliary
//! tensors per tracked parameter and overwrite the parameters in place once
//! per step, driven by a gradient store produced by candle's autodiff.
//!
//! Tensor arithmetic itself is delegated to candle behind a small trusted
//! boundary (`tensor_ops`); everything a step decides - which parameters are
//! tracked, which are touched, which value is combined with which, and how the
//! averaging coefficient of the schedule-free rule evolves - is verified.

pub mod momentum;
pub mod optim_error;
pub mod optimizer;
pub mod ratio;
pub mod schedule_free;
pub mod tensor_ops;
