//! Schedule-Free SGD.
//!
//! Per tracked parameter, `y` is the live parameter value itself (the point
//! forward passes use), `x` a weighted running average and `z` a plain
//! gradient-descent sequence.  With `c = 1 / step_t` (the counter after
//! incrementing for the current call), gradient `g` and hyperparameters
//! `lr`, `beta`, one step computes
//! `y' = (1 - beta) * z + beta * x`,
//! `z' = z - lr * g`,
//! `x' = (1 - c) * x + c * z'`.
//! `y'` uses the pre-step `z` and `x`; `x'` uses the post-step `z'`.  The
//! decaying weight `c` is what makes the rule schedule-free: no externally
//! supplied learning-rate decay is needed.  The weights `1 - beta` and
//! `1 - c` are formed exactly, as rationals over the same denominators.

use crate::optim_error::OptimError;
use crate::ratio::Ratio;
use crate::tensor_ops::add_val;
use crate::tensor_ops::distinct_var_ids;
use crate::tensor_ops::float_vars;
use crate::tensor_ops::grad_get;
use crate::tensor_ops::grad_store_val;
use crate::tensor_ops::scale;
use crate::tensor_ops::scale_val;
use crate::tensor_ops::sub_val;
use crate::tensor_ops::tensor_add;
use crate::tensor_ops::tensor_copy;
use crate::tensor_ops::tensor_is_float;
use crate::tensor_ops::tensor_sub;
use crate::tensor_ops::tensor_val;
use crate::tensor_ops::val_is_float;
use crate::tensor_ops::var_clone;
use crate::tensor_ops::var_id;
use crate::tensor_ops::var_is_float;
use crate::tensor_ops::var_set;
use crate::tensor_ops::var_val;
use crate::tensor_ops::zeros_like;
use crate::tensor_ops::zeros_val;
use vstd::prelude::*;

verus! {

/// Hyperparameters of Schedule-Free SGD.  `beta` is the interpolation weight
/// that the working point `y` puts on the running average `x`; it must not
/// exceed one.
#[derive(Clone, Copy, PartialEq, Eq, Structural, Debug)]
pub struct ParamsSGDSchedulerFree {
    pub lr: Ratio,
    pub beta: Ratio,
}

/// The rationals denote numbers (nonzero denominators) and `beta` is a
/// weight: its rational must not exceed one.
pub open spec fn beta_wf(p: ParamsSGDSchedulerFree) -> bool {
    p.lr.den > 0 && p.beta.den > 0 && p.beta.num <= p.beta.den
}

impl Default for ParamsSGDSchedulerFree {
    /// `lr = 1/1000`, `beta = 9/10`.
    fn default() -> (r: Self)
        ensures
            r.lr == (Ratio { num: 1, den: 1000 }),
            r.beta == (Ratio { num: 9, den: 10 }),
            beta_wf(r),
    {
        ParamsSGDSchedulerFree { lr: Ratio { num: 1, den: 1000 }, beta: Ratio { num: 9, den: 10 } }
    }
}

/// One tracked parameter and its auxiliary state.  Both auxiliary tensors are
/// zero-filled at construction, mutated every step and never reset.
pub struct VarSGDSchedulerFree {
    /// The parameter itself (`y`), updated in place.
    pub var: candle_core::Var,
    /// The running average of the descent sequence.
    pub x: candle_core::Tensor,
    /// The plain gradient-descent sequence.
    pub z: candle_core::Tensor,
}

/// The Schedule-Free SGD optimizer: the tracked parameters with their
/// auxiliary pairs, a step counter and the hyperparameters.
pub struct SGDSchedulerFree {
    pub vars: Vec<VarSGDSchedulerFree>,
    pub step_t: u32,
    pub params: ParamsSGDSchedulerFree,
}

/// A tracked record is floating point throughout: the parameter and both
/// auxiliary tensors.
pub open spec fn schedule_free_rec_wf(rec: VarSGDSchedulerFree) -> bool {
    &&& val_is_float(var_val(rec.var))
    &&& val_is_float(tensor_val(rec.x))
    &&& val_is_float(tensor_val(rec.z))
}

/// No two tracked records hold the same engine variable.
pub open spec fn schedule_free_tracked_distinct(vars: Seq<VarSGDSchedulerFree>) -> bool {
    forall|i: int, j: int|
        0 <= i < j < vars.len() ==> var_id(vars[i].var) != var_id(vars[j].var)
}

/// The optimizer's invariant: usable hyperparameters, pairwise-distinct
/// tracked variables (two handles to one variable would contend for one
/// shared storage), floating-point parameters and auxiliary state.
pub open spec fn schedule_free_wf(o: SGDSchedulerFree) -> bool {
    &&& beta_wf(o.params)
    &&& schedule_free_tracked_distinct(o.vars@)
    &&& forall|i: int| 0 <= i < o.vars@.len() ==> schedule_free_rec_wf(#[trigger] o.vars@[i])
}

/// One parameter's schedule-free update at post-increment step count `t`:
/// the same variable (in place), with
/// `y' = ((den-num)/den) * z + (num/den) * x` over the pre-step `z` and `x`,
/// `z' = z - lr * g`, and `x' = ((t-1)/t) * x + (1/t) * z'` - the averaging
/// weight `c = 1/t`, so at `t == 1` the old average gets weight zero.
pub open spec fn schedule_free_updated(
    pre: VarSGDSchedulerFree,
    post: VarSGDSchedulerFree,
    g: Seq<u64>,
    p: ParamsSGDSchedulerFree,
    t: u32,
) -> bool {
    let y1 = add_val(
        scale_val(tensor_val(pre.z), (p.beta.den - p.beta.num) as u32, p.beta.den),
        scale_val(tensor_val(pre.x), p.beta.num, p.beta.den),
    );
    let z1 = sub_val(tensor_val(pre.z), scale_val(g, p.lr.num, p.lr.den));
    let x1 = add_val(
        scale_val(tensor_val(pre.x), (t - 1) as u32, t),
        scale_val(z1, 1u32, t),
    );
    &&& var_id(post.var) == var_id(pre.var)
    &&& var_val(post.var) == y1
    &&& tensor_val(post.z) == z1
    &&& tensor_val(post.x) == x1
}

/// What one step does to one parameter, given its slot in the gradient
/// lookup: absent means bit-for-bit untouched, present means updated in
/// place by the schedule-free rule with exactly that gradient.
pub open spec fn schedule_free_stepped(
    pre: VarSGDSchedulerFree,
    post: VarSGDSchedulerFree,
    g: Option<candle_core::Tensor>,
    p: ParamsSGDSchedulerFree,
    t: u32,
) -> bool {
    match g {
        None => post == pre,
        Some(g) => schedule_free_updated(pre, post, tensor_val(g), p, t),
    }
}

/// A step that stopped after `k` parameters: the first `k` slots were
/// stepped as their gradient slot demands, and everything from `k` on -
/// the parameter the failing arithmetic belonged to included - is untouched.
pub open spec fn schedule_free_stepped_up_to(
    pre: SGDSchedulerFree,
    post: SGDSchedulerFree,
    grads: Seq<Option<candle_core::Tensor>>,
    k: int,
) -> bool {
    &&& 0 <= k <= pre.vars@.len()
    &&& forall|i: int|
        0 <= i < k ==> schedule_free_stepped(
            pre.vars@[i],
            #[trigger] post.vars@[i],
            grads[i],
            pre.params,
            (pre.step_t + 1) as u32,
        )
    &&& forall|i: int| k <= i < pre.vars@.len() ==> (#[trigger] post.vars@[i]) == pre.vars@[i]
}

/// What one step does to one parameter, given the contents of a gradient
/// store keyed by variable identity: a parameter whose identity the store
/// lacks is untouched, one it holds is updated in place by the schedule-free
/// rule with exactly the recorded gradient.
pub open spec fn schedule_free_store_stepped(
    pre: VarSGDSchedulerFree,
    post: VarSGDSchedulerFree,
    store: Map<int, Seq<u64>>,
    p: ParamsSGDSchedulerFree,
    t: u32,
) -> bool {
    if store.contains_key(var_id(pre.var)) {
        schedule_free_updated(pre, post, store[var_id(pre.var)], p, t)
    } else {
        post == pre
    }
}

/// Every tracked parameter stepped as the store's contents demand.
pub open spec fn schedule_free_store_stepped_all(
    pre: SGDSchedulerFree,
    post: SGDSchedulerFree,
    store: Map<int, Seq<u64>>,
) -> bool {
    forall|i: int|
        0 <= i < pre.vars@.len() ==> schedule_free_store_stepped(
            pre.vars@[i],
            #[trigger] post.vars@[i],
            store,
            pre.params,
            (pre.step_t + 1) as u32,
        )
}

/// As `schedule_free_stepped_up_to`, over a store's contents.
pub open spec fn schedule_free_store_stepped_up_to(
    pre: SGDSchedulerFree,
    post: SGDSchedulerFree,
    store: Map<int, Seq<u64>>,
    k: int,
) -> bool {
    &&& 0 <= k <= pre.vars@.len()
    &&& forall|i: int|
        0 <= i < k ==> schedule_free_store_stepped(
            pre.vars@[i],
            #[trigger] post.vars@[i],
            store,
            pre.params,
            (pre.step_t + 1) as u32,
        )
    &&& forall|i: int| k <= i < pre.vars@.len() ==> (#[trigger] post.vars@[i]) == pre.vars@[i]
}

/// Slotwise: either both absent, or both present with the same contents.
pub open spec fn sf_grad_slot_val_eq(
    a: Option<candle_core::Tensor>,
    b: Option<candle_core::Tensor>,
) -> bool {
    match (a, b) {
        (Option::None, Option::None) => true,
        (Option::Some(x), Option::Some(y)) => tensor_val(x) == tensor_val(y),
        _ => false,
    }
}

/// The identity of `v` occurs among the first `n` of `s`.
spec fn sf_id_among(v: candle_core::Var, s: Seq<candle_core::Var>, n: int) -> bool {
    exists|l: int| 0 <= l < n && var_id(v) == var_id(#[trigger] s[l])
}

proof fn lemma_schedule_free_distinct_preserved(
    pre: Seq<VarSGDSchedulerFree>,
    post: Seq<VarSGDSchedulerFree>,
)
    requires
        post.len() == pre.len(),
        schedule_free_tracked_distinct(pre),
        forall|i: int| 0 <= i < post.len() ==> var_id(#[trigger] post[i].var) == var_id(pre[i].var),
    ensures
        schedule_free_tracked_distinct(post),
{
    assert forall|i: int, j: int|
        0 <= i < j < post.len() implies var_id(post[i].var) != var_id(post[j].var) by {
        assert(var_id(post[i].var) == var_id(pre[i].var));
        assert(var_id(post[j].var) == var_id(pre[j].var));
    }
}

impl SGDSchedulerFree {
    /// Builds an optimizer over the floating-point variables of `vars`, in
    /// order; every other variable is dropped and never tracked.  Each
    /// retained parameter gets zero-filled `x` and `z` shaped like itself
    /// (not copies of the parameter's initial value).  The inputs must be
    /// pairwise-distinct variables: the optimizer takes the sole right to
    /// write them.  The only failure is an allocation failure for an
    /// auxiliary tensor.
    pub fn new(vars: Vec<candle_core::Var>, params: ParamsSGDSchedulerFree) -> (r: Result<
        Self,
        OptimError,
    >)
        requires
            distinct_var_ids(vars@),
            beta_wf(params),
        ensures
            match r {
                Ok(o) => {
                    &&& o.step_t == 0
                    &&& o.params == params
                    &&& o.vars@.map_values(|p: VarSGDSchedulerFree| p.var) == float_vars(vars@)
                    &&& forall|i: int|
                        0 <= i < o.vars@.len() ==> tensor_val(#[trigger] o.vars@[i].x) == zeros_val(
                            var_val(o.vars@[i].var),
                        )
                    &&& forall|i: int|
                        0 <= i < o.vars@.len() ==> tensor_val(#[trigger] o.vars@[i].z) == zeros_val(
                            var_val(o.vars@[i].var),
                        )
                    &&& schedule_free_wf(o)
                },
                Err(e) => e is Allocation,
            },
            (forall|i: int|
                0 <= i < vars@.len() ==> !val_is_float(var_val(#[trigger] vars@[i]))) ==> r is Ok,
    {
        let mut tracked_vars: Vec<VarSGDSchedulerFree> = Vec::new();
        let n = vars.len();
        let mut i: usize = 0;
        while i < n
            invariant
                i <= n,
                n == vars@.len(),
                distinct_var_ids(vars@),
                tracked_vars@.map_values(|p: VarSGDSchedulerFree| p.var) == float_vars(
                    vars@.take(i as int),
                ),
                forall|j: int|
                    0 <= j < tracked_vars@.len() ==> tensor_val(
                        #[trigger] tracked_vars@[j].x,
                    ) == zeros_val(var_val(tracked_vars@[j].var)),
                forall|j: int|
                    0 <= j < tracked_vars@.len() ==> tensor_val(
                        #[trigger] tracked_vars@[j].z,
                    ) == zeros_val(var_val(tracked_vars@[j].var)),
                forall|j: int|
                    0 <= j < tracked_vars@.len() ==> schedule_free_rec_wf(
                        #[trigger] tracked_vars@[j],
                    ),
                forall|j: int|
                    0 <= j < tracked_vars@.len() ==> sf_id_among(
                        (#[trigger] tracked_vars@[j]).var,
                        vars@,
                        i as int,
                    ),
                schedule_free_tracked_distinct(tracked_vars@),
            decreases n - i,
        {
            let v = var_clone(&vars[i]);
            assert(vars@.take(i + 1).drop_last() =~= vars@.take(i as int));
            assert(vars@.take(i + 1).last() == vars@[i as int]);
            if var_is_float(&v) {
                let x = match zeros_like(&v) {
                    Ok(t) => t,
                    Err(e) => {
                        return Err(OptimError::Allocation(e));
                    },
                };
                let z = match zeros_like(&v) {
                    Ok(t) => t,
                    Err(e) => {
                        return Err(OptimError::Allocation(e));
                    },
                };
                let rec = VarSGDSchedulerFree { var: v, x, z };
                let ghost grec = rec;
                let ghost prev = tracked_vars@;
                tracked_vars.push(rec);
                assert(tracked_vars@.map_values(|p: VarSGDSchedulerFree| p.var) =~= prev.map_values(
                    |p: VarSGDSchedulerFree| p.var,
                ).push(vars@[i as int]));
                proof {
                    assert(tracked_vars@[prev.len() as int] == grec);
                    assert(var_id(grec.var) == var_id(vars@[i as int]));
                    assert forall|j: int|
                        0 <= j < tracked_vars@.len() implies tensor_val(tracked_vars@[j].x)
                        == zeros_val(var_val(tracked_vars@[j].var)) && tensor_val(
                        tracked_vars@[j].z,
                    ) == zeros_val(var_val(tracked_vars@[j].var)) && schedule_free_rec_wf(
                        tracked_vars@[j],
                    ) by {
                        if j < prev.len() {
                            assert(tracked_vars@[j] == prev[j]);
                            assert(tensor_val(prev[j].x) == zeros_val(var_val(prev[j].var)));
                            assert(tensor_val(prev[j].z) == zeros_val(var_val(prev[j].var)));
                            assert(schedule_free_rec_wf(prev[j]));
                        } else {
                            assert(tracked_vars@[j] == grec);
                        }
                    }
                    assert forall|j: int|
                        0 <= j < tracked_vars@.len() implies sf_id_among(
                        tracked_vars@[j].var,
                        vars@,
                        i + 1,
                    ) by {
                        if j < prev.len() {
                            assert(tracked_vars@[j] == prev[j]);
                            assert(sf_id_among(prev[j].var, vars@, i as int));
                            let l = choose|l: int|
                                0 <= l < i && var_id(prev[j].var) == var_id(vars@[l]);
                            assert(0 <= l < i + 1 && var_id(tracked_vars@[j].var) == var_id(
                                vars@[l],
                            ));
                        } else {
                            assert(0 <= i < i + 1 && var_id(tracked_vars@[j].var) == var_id(
                                vars@[i as int],
                            ));
                        }
                    }
                    assert forall|j1: int, j2: int|
                        0 <= j1 < j2 < tracked_vars@.len() implies var_id(tracked_vars@[j1].var)
                        != var_id(tracked_vars@[j2].var) by {
                        if j2 < prev.len() {
                            assert(tracked_vars@[j1] == prev[j1]);
                            assert(tracked_vars@[j2] == prev[j2]);
                        } else {
                            assert(tracked_vars@[j2] == grec);
                            assert(tracked_vars@[j1] == prev[j1]);
                            assert(sf_id_among(prev[j1].var, vars@, i as int));
                            let l = choose|l: int|
                                0 <= l < i && var_id(prev[j1].var) == var_id(vars@[l]);
                            assert(var_id(vars@[l]) != var_id(vars@[i as int]));
                        }
                    }
                }
            }
            i = i + 1;
        }
        assert(vars@.take(n as int) =~= vars@);
        Ok(SGDSchedulerFree { vars: tracked_vars, step_t: 0, params })
    }

    /// Builds an optimizer with the given learning rate and the default
    /// interpolation weight.
    pub fn new_lr(vars: Vec<candle_core::Var>, learning_rate: Ratio) -> (r: Result<
        Self,
        OptimError,
    >)
        requires
            distinct_var_ids(vars@),
            learning_rate.den > 0,
        ensures
            match r {
                Ok(o) => {
                    &&& o.step_t == 0
                    &&& o.params == (ParamsSGDSchedulerFree {
                        lr: learning_rate,
                        beta: Ratio { num: 9, den: 10 },
                    })
                    &&& o.vars@.map_values(|p: VarSGDSchedulerFree| p.var) == float_vars(vars@)
                    &&& forall|i: int|
                        0 <= i < o.vars@.len() ==> tensor_val(#[trigger] o.vars@[i].x) == zeros_val(
                            var_val(o.vars@[i].var),
                        )
                    &&& forall|i: int|
                        0 <= i < o.vars@.len() ==> tensor_val(#[trigger] o.vars@[i].z) == zeros_val(
                            var_val(o.vars@[i].var),
                        )
                    &&& schedule_free_wf(o)
                },
                Err(e) => e is Allocation,
            },
            (forall|i: int|
                0 <= i < vars@.len() ==> !val_is_float(var_val(#[trigger] vars@[i]))) ==> r is Ok,
    {
        let defaults = ParamsSGDSchedulerFree::default();
        Self::new(vars, ParamsSGDSchedulerFree { lr: learning_rate, beta: defaults.beta })
    }

    /// The current base learning rate.
    pub fn learning_rate(&self) -> (r: Ratio)
        ensures
            r == self.params.lr,
    {
        self.params.lr
    }

    /// Overwrites the base learning rate; effective from the next step.
    pub fn set_learning_rate(&mut self, lr: Ratio)
        requires
            lr.den > 0,
        ensures
            final(self).params.lr == lr,
            final(self).params.beta == old(self).params.beta,
            final(self).vars@ == old(self).vars@,
            final(self).step_t == old(self).step_t,
    {
        self.params.lr = lr;
    }

    /// The current hyperparameters.
    pub fn params(&self) -> (r: &ParamsSGDSchedulerFree)
        ensures
            *r == self.params,
    {
        &self.params
    }

    /// Replaces the hyperparameters wholesale; effective from the next step.
    pub fn set_params(&mut self, params: ParamsSGDSchedulerFree)
        requires
            beta_wf(params),
        ensures
            final(self).params == params,
            final(self).vars@ == old(self).vars@,
            final(self).step_t == old(self).step_t,
    {
        self.params = params;
    }

    /// One step over a gradient lookup already translated into this
    /// optimizer's index space: slot `i` of `grads` is the gradient of
    /// parameter `i`, or `None` if that parameter took no part in the loss.
    /// Every present gradient is deep-copied before the first in-place write,
    /// so a gradient that shares storage with a parameter cannot be changed
    /// mid-step.
    ///
    /// On success every tracked parameter is updated in place exactly by the
    /// schedule-free rule with its own gradient at the new step count, and
    /// parameters without one are left bit-for-bit untouched.  On failure
    /// some prefix of the parameters has been updated and the rest - the
    /// failing one included - are untouched; the counter advances either way.
    pub fn step_indexed(&mut self, grads: &Vec<Option<candle_core::Tensor>>) -> (r: Result<
        (),
        OptimError,
    >)
        requires
            old(self).step_t < u32::MAX,
            schedule_free_wf(*old(self)),
            grads@.len() == old(self).vars@.len(),
        ensures
            final(self).step_t == old(self).step_t + 1,
            final(self).params == old(self).params,
            final(self).vars@.len() == old(self).vars@.len(),
            schedule_free_wf(*final(self)),
            r is Ok ==> forall|i: int|
                0 <= i < old(self).vars@.len() ==> schedule_free_stepped(
                    old(self).vars@[i],
                    #[trigger] final(self).vars@[i],
                    grads@[i],
                    old(self).params,
                    (old(self).step_t + 1) as u32,
                ),
            (forall|i: int|
                0 <= i < grads@.len() ==> (#[trigger] grads@[i]) is None) ==> r is Ok,
            r matches Err(e) ==> e is Arithmetic && exists|k: int|
                schedule_free_stepped_up_to(*old(self), *final(self), grads@, k),
    {
        self.step_t = self.step_t + 1;
        let t = self.step_t;
        let lr = self.params.lr;
        let beta = self.params.beta;
        let one_minus_beta_num = beta.den - beta.num;
        let n = self.vars.len();
        let mut owned_grads: Vec<Option<candle_core::Tensor>> = Vec::new();
        let mut c: usize = 0;
        while c < n
            invariant
                c <= n,
                n == old(self).vars@.len(),
                grads@.len() == n,
                self.vars@ == old(self).vars@,
                self.step_t == old(self).step_t + 1,
                self.params == old(self).params,
                schedule_free_wf(*old(self)),
                owned_grads@.len() == c,
                forall|j: int|
                    0 <= j < c ==> sf_grad_slot_val_eq(#[trigger] owned_grads@[j], grads@[j]),
            decreases n - c,
        {
            match &grads[c] {
                None => {
                    owned_grads.push(None);
                },
                Some(g) => {
                    match tensor_copy(g) {
                        Ok(cp) => {
                            owned_grads.push(Some(cp));
                        },
                        Err(e) => {
                            assert(schedule_free_stepped_up_to(*old(self), *self, grads@, 0));
                            return Err(OptimError::Arithmetic(e));
                        },
                    }
                },
            }
            c = c + 1;
        }
        let mut i: usize = 0;
        while i < n
            invariant
                i <= n,
                n == old(self).vars@.len(),
                self.vars@.len() == n,
                grads@.len() == n,
                owned_grads@.len() == n,
                self.step_t == old(self).step_t + 1,
                self.params == old(self).params,
                t == self.step_t,
                t >= 1,
                lr == old(self).params.lr,
                beta == old(self).params.beta,
                one_minus_beta_num == beta.den - beta.num,
                schedule_free_wf(*old(self)),
                forall|j: int|
                    0 <= j < n ==> sf_grad_slot_val_eq(#[trigger] owned_grads@[j], grads@[j]),
                forall|j: int|
                    0 <= j < i ==> schedule_free_stepped(
                        old(self).vars@[j],
                        #[trigger] self.vars@[j],
                        grads@[j],
                        old(self).params,
                        t,
                    ),
                forall|j: int|
                    i <= j < n ==> (#[trigger] self.vars@[j]) == old(self).vars@[j],
                forall|j: int| 0 <= j < n ==> schedule_free_rec_wf(#[trigger] self.vars@[j]),
                forall|j: int|
                    0 <= j < n ==> var_id((#[trigger] self.vars@[j]).var) == var_id(
                        old(self).vars@[j].var,
                    ),
            decreases n - i,
        {
            match &owned_grads[i] {
                None => {},
                Some(g) => {
                    if !tensor_is_float(g) {
                        // The auxiliary z is floating point, so candle
                        // rejects the mismatched element types.
                        match tensor_sub(&self.vars[i].z, g) {
                            Err(e) => {
                                proof {
                                    lemma_schedule_free_distinct_preserved(
                                        old(self).vars@,
                                        self.vars@,
                                    );
                                    assert(schedule_free_stepped_up_to(
                                        *old(self),
                                        *self,
                                        grads@,
                                        i as int,
                                    ));
                                }
                                return Err(OptimError::Arithmetic(e));
                            },
                            Ok(_) => {
                                proof {
                                    assert(false);
                                }
                            },
                        }
                    }
                    // y' = (1 - beta) * z + beta * x, over the pre-step z and x.
                    let y_from_z = match scale(&self.vars[i].z, one_minus_beta_num, beta.den) {
                        Ok(s) => s,
                        Err(e) => {
                            proof {
                                lemma_schedule_free_distinct_preserved(old(self).vars@, self.vars@);
                                assert(schedule_free_stepped_up_to(
                                    *old(self),
                                    *self,
                                    grads@,
                                    i as int,
                                ));
                            }
                            return Err(OptimError::Arithmetic(e));
                        },
                    };
                    let y_from_x = match scale(&self.vars[i].x, beta.num, beta.den) {
                        Ok(s) => s,
                        Err(e) => {
                            proof {
                                lemma_schedule_free_distinct_preserved(old(self).vars@, self.vars@);
                                assert(schedule_free_stepped_up_to(
                                    *old(self),
                                    *self,
                                    grads@,
                                    i as int,
                                ));
                            }
                            return Err(OptimError::Arithmetic(e));
                        },
                    };
                    let next_y = match tensor_add(&y_from_z, &y_from_x) {
                        Ok(s) => s,
                        Err(e) => {
                            proof {
                                lemma_schedule_free_distinct_preserved(old(self).vars@, self.vars@);
                                assert(schedule_free_stepped_up_to(
                                    *old(self),
                                    *self,
                                    grads@,
                                    i as int,
                                ));
                            }
                            return Err(OptimError::Arithmetic(e));
                        },
                    };
                    // z' = z - lr * g.
                    let lr_g = match scale(g, lr.num, lr.den) {
                        Ok(s) => s,
                        Err(e) => {
                            proof {
                                lemma_schedule_free_distinct_preserved(old(self).vars@, self.vars@);
                                assert(schedule_free_stepped_up_to(
                                    *old(self),
                                    *self,
                                    grads@,
                                    i as int,
                                ));
                            }
                            return Err(OptimError::Arithmetic(e));
                        },
                    };
                    let next_z = match tensor_sub(&self.vars[i].z, &lr_g) {
                        Ok(s) => s,
                        Err(e) => {
                            proof {
                                lemma_schedule_free_distinct_preserved(old(self).vars@, self.vars@);
                                assert(schedule_free_stepped_up_to(
                                    *old(self),
                                    *self,
                                    grads@,
                                    i as int,
                                ));
                            }
                            return Err(OptimError::Arithmetic(e));
                        },
                    };
                    // x' = (1 - c) * x + c * z', with c = 1 / t.
                    let x_kept = match scale(&self.vars[i].x, t - 1, t) {
                        Ok(s) => s,
                        Err(e) => {
                            proof {
                                lemma_schedule_free_distinct_preserved(old(self).vars@, self.vars@);
                                assert(schedule_free_stepped_up_to(
                                    *old(self),
                                    *self,
                                    grads@,
                                    i as int,
                                ));
                            }
                            return Err(OptimError::Arithmetic(e));
                        },
                    };
                    let x_new = match scale(&next_z, 1, t) {
                        Ok(s) => s,
                        Err(e) => {
                            proof {
                                lemma_schedule_free_distinct_preserved(old(self).vars@, self.vars@);
                                assert(schedule_free_stepped_up_to(
                                    *old(self),
                                    *self,
                                    grads@,
                                    i as int,
                                ));
                            }
                            return Err(OptimError::Arithmetic(e));
                        },
                    };
                    let next_x = match tensor_add(&x_kept, &x_new) {
                        Ok(s) => s,
                        Err(e) => {
                            proof {
                                lemma_schedule_free_distinct_preserved(old(self).vars@, self.vars@);
                                assert(schedule_free_stepped_up_to(
                                    *old(self),
                                    *self,
                                    grads@,
                                    i as int,
                                ));
                            }
                            return Err(OptimError::Arithmetic(e));
                        },
                    };
                    let set_res = var_set(&mut self.vars[i].var, &next_y);
                    match set_res {
                        Ok(()) => {},
                        Err(e) => {
                            proof {
                                lemma_schedule_free_distinct_preserved(old(self).vars@, self.vars@);
                                assert(schedule_free_stepped_up_to(
                                    *old(self),
                                    *self,
                                    grads@,
                                    i as int,
                                ));
                            }
                            return Err(OptimError::Arithmetic(e));
                        },
                    };
                    self.vars[i].z = next_z;
                    self.vars[i].x = next_x;
                },
            }
            i = i + 1;
        }
        proof {
            lemma_schedule_free_distinct_preserved(old(self).vars@, self.vars@);
        }
        Ok(())
    }

    /// One step over a gradient store keyed by parameter identity.  The
    /// store is translated once into this optimizer's index space and the
    /// step is taken there; the contract is exact per identity: a tracked
    /// parameter whose identity the store holds is updated in place by the
    /// schedule-free rule with the recorded gradient, every other one is
    /// left bit-for-bit untouched.
    pub fn step(&mut self, grads: &candle_core::backprop::GradStore) -> (r: Result<(), OptimError>)
        requires
            old(self).step_t < u32::MAX,
            schedule_free_wf(*old(self)),
        ensures
            final(self).step_t == old(self).step_t + 1,
            final(self).params == old(self).params,
            final(self).vars@.len() == old(self).vars@.len(),
            schedule_free_wf(*final(self)),
            r is Ok ==> schedule_free_store_stepped_all(
                *old(self),
                *final(self),
                grad_store_val(*grads),
            ),
            r matches Err(e) ==> e is Arithmetic && exists|k: int|
                schedule_free_store_stepped_up_to(
                    *old(self),
                    *final(self),
                    grad_store_val(*grads),
                    k,
                ),
    {
        let lookup = self.collect_grads(grads);
        let r = self.step_indexed(&lookup);
        proof {
            let pre = *old(self);
            let store = grad_store_val(*grads);
            let t = (pre.step_t + 1) as u32;
            match r {
                Ok(()) => {
                    assert forall|i: int|
                        0 <= i < pre.vars@.len() implies schedule_free_store_stepped(
                        pre.vars@[i],
                        self.vars@[i],
                        store,
                        pre.params,
                        t,
                    ) by {
                        assert(schedule_free_stepped(
                            pre.vars@[i],
                            self.vars@[i],
                            lookup@[i],
                            pre.params,
                            t,
                        ));
                    }
                },
                Err(_) => {
                    let k = choose|k: int|
                        schedule_free_stepped_up_to(pre, *self, lookup@, k);
                    assert forall|i: int|
                        0 <= i < k implies schedule_free_store_stepped(
                        pre.vars@[i],
                        self.vars@[i],
                        store,
                        pre.params,
                        t,
                    ) by {
                        assert(schedule_free_stepped(
                            pre.vars@[i],
                            self.vars@[i],
                            lookup@[i],
                            pre.params,
                            t,
                        ));
                    }
                    assert(schedule_free_store_stepped_up_to(pre, *self, store, k));
                },
            }
        }
        r
    }

    /// Translates a gradient store into this optimizer's index space: slot
    /// `i` receives exactly what the store holds for parameter `i`'s
    /// identity.
    fn collect_grads(&self, grads: &candle_core::backprop::GradStore) -> (r: Vec<
        Option<candle_core::Tensor>,
    >)
        ensures
            r@.len() == self.vars@.len(),
            forall|i: int|
                0 <= i < r@.len() ==> match #[trigger] r@[i] {
                    Some(g) => grad_store_val(*grads).contains_key(var_id(self.vars@[i].var))
                        && tensor_val(g) == grad_store_val(*grads)[var_id(self.vars@[i].var)],
                    None => !grad_store_val(*grads).contains_key(var_id(self.vars@[i].var)),
                },
    {
        let mut lookup: Vec<Option<candle_core::Tensor>> = Vec::new();
        let n = self.vars.len();
        let mut i: usize = 0;
        while i < n
            invariant
                i <= n,
                n == self.vars@.len(),
                lookup@.len() == i,
                forall|j: int|
                    0 <= j < i ==> match #[trigger] lookup@[j] {
                        Some(g) => grad_store_val(*grads).contains_key(var_id(self.vars@[j].var))
                            && tensor_val(g) == grad_store_val(*grads)[var_id(self.vars@[j].var)],
                        None => !grad_store_val(*grads).contains_key(var_id(self.vars@[j].var)),
                    },
            decreases n - i,
        {
            lookup.push(grad_get(grads, &self.vars[i].var));
            i = i + 1;
        }
        lookup
    }

    /// Differentiates `loss` and takes one step with the resulting
    /// gradients: there is a store - the one differentiation produced - whose
    /// contents the step followed exactly, per identity.  If differentiation
    /// fails, no parameter or auxiliary state is touched.
    pub fn backward_step(&mut self, loss: &candle_core::Tensor) -> (r: Result<(), OptimError>)
        requires
            old(self).step_t < u32::MAX,
            schedule_free_wf(*old(self)),
        ensures
            match r {
                Ok(()) => {
                    &&& final(self).step_t == old(self).step_t + 1
                    &&& final(self).params == old(self).params
                    &&& final(self).vars@.len() == old(self).vars@.len()
                    &&& schedule_free_wf(*final(self))
                    &&& exists|m: Map<int, Seq<u64>>|
                        schedule_free_store_stepped_all(*old(self), *final(self), m)
                },
                Err(e) => match e {
                    OptimError::Differentiation(_) => *final(self) == *old(self),
                    OptimError::Arithmetic(_) => {
                        &&& final(self).step_t == old(self).step_t + 1
                        &&& final(self).params == old(self).params
                        &&& final(self).vars@.len() == old(self).vars@.len()
                        &&& schedule_free_wf(*final(self))
                        &&& exists|m: Map<int, Seq<u64>>, k: int|
                            schedule_free_store_stepped_up_to(*old(self), *final(self), m, k)
                    },
                    OptimError::Allocation(_) => false,
                },
            },
    {
        let grads = match crate::tensor_ops::backward(loss) {
            Ok(g) => g,
            Err(e) => {
                return Err(OptimError::Differentiation(e));
            },
        };
        self.step(&grads)
    }
}

impl crate::optimizer::Optimizer for SGDSchedulerFree {
    open spec fn lr_spec(&self) -> Ratio {
        self.params.lr
    }

    open spec fn steps_spec(&self) -> u32 {
        self.step_t
    }

    open spec fn ready_spec(&self) -> bool {
        schedule_free_wf(*self)
    }

    fn learning_rate(&self) -> Ratio {
        SGDSchedulerFree::learning_rate(self)
    }

    fn set_learning_rate(&mut self, lr: Ratio) {
        SGDSchedulerFree::set_learning_rate(self, lr)
    }

    fn step(&mut self, grads: &candle_core::backprop::GradStore) -> Result<(), OptimError> {
        SGDSchedulerFree::step(self, grads)
    }

    fn backward_step(&mut self, loss: &candle_core::Tensor) -> Result<(), OptimError> {
        SGDSchedulerFree::backward_step(self, loss)
    }
}

} // verus!
