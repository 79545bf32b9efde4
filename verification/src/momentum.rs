//! Classical momentum SGD.
//!
//! Per tracked parameter `theta` with moment `m`, gradient `g` and
//! hyperparameters `lr`, `beta`, one step computes
//! `m' = beta * m + g` and `theta' = theta - lr * m'`
//! (the parameter update uses the freshly computed moment).  `beta` is the
//! memory of past gradients itself, not a `1 - beta` decay convention.

use crate::optim_error::OptimError;
use crate::ratio::Ratio;
use crate::tensor_ops::add_val;
use crate::tensor_ops::distinct_var_ids;
use crate::tensor_ops::float_vars;
use crate::tensor_ops::grad_get;
use crate::tensor_ops::grad_store_val;
use crate::tensor_ops::scale;
use crate::tensor_ops::scale_val;
use crate::tensor_ops::sub_val;
use crate::tensor_ops::tensor_add;
use crate::tensor_ops::tensor_copy;
use crate::tensor_ops::tensor_sub;
use crate::tensor_ops::tensor_val;
use crate::tensor_ops::val_is_float;
use crate::tensor_ops::var_clone;
use crate::tensor_ops::var_id;
use crate::tensor_ops::var_is_float;
use crate::tensor_ops::var_set;
use crate::tensor_ops::var_val;
use crate::tensor_ops::var_value;
use crate::tensor_ops::zeros_like;
use crate::tensor_ops::zeros_val;
use vstd::prelude::*;

verus! {

/// Hyperparameters of momentum SGD.
#[derive(Clone, Copy, PartialEq, Eq, Structural, Debug)]
pub struct ParamsSGDMomentum {
    pub lr: Ratio,
    pub beta: Ratio,
}

/// The rationals must have nonzero denominators to denote numbers at all.
pub open spec fn params_wf(p: ParamsSGDMomentum) -> bool {
    p.lr.den > 0 && p.beta.den > 0
}

impl Default for ParamsSGDMomentum {
    /// `lr = 1/1000`, `beta = 1/10`: mild momentum by default.
    fn default() -> (r: Self)
        ensures
            r.lr == (Ratio { num: 1, den: 1000 }),
            r.beta == (Ratio { num: 1, den: 10 }),
            params_wf(r),
    {
        ParamsSGDMomentum { lr: Ratio { num: 1, den: 1000 }, beta: Ratio { num: 1, den: 10 } }
    }
}

/// One tracked parameter and its auxiliary state.
pub struct VarSGDMomentum {
    /// The parameter itself, updated in place.
    pub var: candle_core::Var,
    /// Exponentially weighted accumulation of past gradients; zero-filled at
    /// construction, mutated every step, never reset.
    pub first_moment: candle_core::Tensor,
}

/// The momentum SGD optimizer: the tracked parameters with their moments, a
/// step counter and the hyperparameters.
pub struct SGDMomentum {
    pub vars: Vec<VarSGDMomentum>,
    pub step_t: u32,
    pub params: ParamsSGDMomentum,
}

/// A tracked record is floating point throughout: the parameter and its
/// moment.
pub open spec fn momentum_rec_wf(rec: VarSGDMomentum) -> bool {
    val_is_float(var_val(rec.var)) && val_is_float(tensor_val(rec.first_moment))
}

/// No two tracked records hold the same engine variable.
pub open spec fn momentum_tracked_distinct(vars: Seq<VarSGDMomentum>) -> bool {
    forall|i: int, j: int|
        0 <= i < j < vars.len() ==> var_id(vars[i].var) != var_id(vars[j].var)
}

/// The optimizer's invariant: usable hyperparameters, pairwise-distinct
/// tracked variables (two handles to one variable would contend for one
/// shared storage), floating-point parameters and moments.
pub open spec fn momentum_wf(o: SGDMomentum) -> bool {
    &&& params_wf(o.params)
    &&& momentum_tracked_distinct(o.vars@)
    &&& forall|i: int| 0 <= i < o.vars@.len() ==> momentum_rec_wf(#[trigger] o.vars@[i])
}

/// One parameter's momentum update: the same variable (in place), whose new
/// contents are `theta - lr * (beta * m + g)`, with the new moment
/// `beta * m + g`.
pub open spec fn momentum_updated(
    pre: VarSGDMomentum,
    post: VarSGDMomentum,
    g: Seq<u64>,
    p: ParamsSGDMomentum,
) -> bool {
    let m1 = add_val(scale_val(tensor_val(pre.first_moment), p.beta.num, p.beta.den), g);
    &&& var_id(post.var) == var_id(pre.var)
    &&& tensor_val(post.first_moment) == m1
    &&& var_val(post.var) == sub_val(var_val(pre.var), scale_val(m1, p.lr.num, p.lr.den))
}

/// What one step does to one parameter, given its slot in the gradient
/// lookup: a parameter absent from the lookup is left untouched, a present
/// one is updated in place by the momentum rule with exactly that gradient.
pub open spec fn momentum_stepped(
    pre: VarSGDMomentum,
    post: VarSGDMomentum,
    g: Option<candle_core::Tensor>,
    p: ParamsSGDMomentum,
) -> bool {
    match g {
        None => post == pre,
        Some(g) => momentum_updated(pre, post, tensor_val(g), p),
    }
}

/// A step that stopped after `k` parameters: the first `k` slots were
/// stepped as their gradient slot demands, and everything from `k` on -
/// the parameter the failing arithmetic belonged to included - is untouched.
pub open spec fn momentum_stepped_up_to(
    pre: SGDMomentum,
    post: SGDMomentum,
    grads: Seq<Option<candle_core::Tensor>>,
    k: int,
) -> bool {
    &&& 0 <= k <= pre.vars@.len()
    &&& forall|i: int|
        0 <= i < k ==> momentum_stepped(pre.vars@[i], #[trigger] post.vars@[i], grads[i], pre.params)
    &&& forall|i: int| k <= i < pre.vars@.len() ==> (#[trigger] post.vars@[i]) == pre.vars@[i]
}

/// What one step does to one parameter, given the contents of a gradient
/// store keyed by variable identity: a parameter whose identity the store
/// lacks is untouched, one it holds is updated in place by the momentum rule
/// with exactly the recorded gradient.
pub open spec fn momentum_store_stepped(
    pre: VarSGDMomentum,
    post: VarSGDMomentum,
    store: Map<int, Seq<u64>>,
    p: ParamsSGDMomentum,
) -> bool {
    if store.contains_key(var_id(pre.var)) {
        momentum_updated(pre, post, store[var_id(pre.var)], p)
    } else {
        post == pre
    }
}

/// Every tracked parameter stepped as the store's contents demand.
pub open spec fn momentum_store_stepped_all(
    pre: SGDMomentum,
    post: SGDMomentum,
    store: Map<int, Seq<u64>>,
) -> bool {
    forall|i: int|
        0 <= i < pre.vars@.len() ==> momentum_store_stepped(
            pre.vars@[i],
            #[trigger] post.vars@[i],
            store,
            pre.params,
        )
}

/// As `momentum_stepped_up_to`, over a store's contents.
pub open spec fn momentum_store_stepped_up_to(
    pre: SGDMomentum,
    post: SGDMomentum,
    store: Map<int, Seq<u64>>,
    k: int,
) -> bool {
    &&& 0 <= k <= pre.vars@.len()
    &&& forall|i: int|
        0 <= i < k ==> momentum_store_stepped(
            pre.vars@[i],
            #[trigger] post.vars@[i],
            store,
            pre.params,
        )
    &&& forall|i: int| k <= i < pre.vars@.len() ==> (#[trigger] post.vars@[i]) == pre.vars@[i]
}

/// Slotwise: either both absent, or both present with the same contents.
pub open spec fn grad_slot_val_eq(
    a: Option<candle_core::Tensor>,
    b: Option<candle_core::Tensor>,
) -> bool {
    match (a, b) {
        (Option::None, Option::None) => true,
        (Option::Some(x), Option::Some(y)) => tensor_val(x) == tensor_val(y),
        _ => false,
    }
}

/// The identity of `v` occurs among the first `n` of `s`.
spec fn id_among(v: candle_core::Var, s: Seq<candle_core::Var>, n: int) -> bool {
    exists|l: int| 0 <= l < n && var_id(v) == var_id(#[trigger] s[l])
}

proof fn lemma_momentum_distinct_preserved(pre: Seq<VarSGDMomentum>, post: Seq<VarSGDMomentum>)
    requires
        post.len() == pre.len(),
        momentum_tracked_distinct(pre),
        forall|i: int| 0 <= i < post.len() ==> var_id(#[trigger] post[i].var) == var_id(pre[i].var),
    ensures
        momentum_tracked_distinct(post),
{
    assert forall|i: int, j: int|
        0 <= i < j < post.len() implies var_id(post[i].var) != var_id(post[j].var) by {
        assert(var_id(post[i].var) == var_id(pre[i].var));
        assert(var_id(post[j].var) == var_id(pre[j].var));
    }
}

impl SGDMomentum {
    /// Builds an optimizer over the floating-point variables of `vars`, in
    /// order; every other variable is dropped and never tracked.  Each
    /// retained parameter gets a zero-filled moment shaped like itself.  The
    /// inputs must be pairwise-distinct variables: the optimizer takes the
    /// sole right to write them (two handles to one variable would be two
    /// records over one storage).  The only failure is an allocation failure
    /// for a moment.
    pub fn new(vars: Vec<candle_core::Var>, params: ParamsSGDMomentum) -> (r: Result<
        Self,
        OptimError,
    >)
        requires
            distinct_var_ids(vars@),
            params_wf(params),
        ensures
            match r {
                Ok(o) => {
                    &&& o.step_t == 0
                    &&& o.params == params
                    &&& o.vars@.map_values(|p: VarSGDMomentum| p.var) == float_vars(vars@)
                    &&& forall|i: int|
                        0 <= i < o.vars@.len() ==> tensor_val(
                            #[trigger] o.vars@[i].first_moment,
                        ) == zeros_val(var_val(o.vars@[i].var))
                    &&& momentum_wf(o)
                },
                Err(e) => e is Allocation,
            },
            (forall|i: int|
                0 <= i < vars@.len() ==> !val_is_float(var_val(#[trigger] vars@[i]))) ==> r is Ok,
    {
        let mut tracked_vars: Vec<VarSGDMomentum> = Vec::new();
        let n = vars.len();
        let mut i: usize = 0;
        while i < n
            invariant
                i <= n,
                n == vars@.len(),
                distinct_var_ids(vars@),
                tracked_vars@.map_values(|p: VarSGDMomentum| p.var) == float_vars(
                    vars@.take(i as int),
                ),
                forall|j: int|
                    0 <= j < tracked_vars@.len() ==> tensor_val(
                        #[trigger] tracked_vars@[j].first_moment,
                    ) == zeros_val(var_val(tracked_vars@[j].var)),
                forall|j: int|
                    0 <= j < tracked_vars@.len() ==> momentum_rec_wf(#[trigger] tracked_vars@[j]),
                forall|j: int|
                    0 <= j < tracked_vars@.len() ==> id_among(
                        (#[trigger] tracked_vars@[j]).var,
                        vars@,
                        i as int,
                    ),
                momentum_tracked_distinct(tracked_vars@),
            decreases n - i,
        {
            let v = var_clone(&vars[i]);
            assert(vars@.take(i + 1).drop_last() =~= vars@.take(i as int));
            assert(vars@.take(i + 1).last() == vars@[i as int]);
            if var_is_float(&v) {
                let m = match zeros_like(&v) {
                    Ok(m) => m,
                    Err(e) => {
                        return Err(OptimError::Allocation(e));
                    },
                };
                let rec = VarSGDMomentum { var: v, first_moment: m };
                let ghost grec = rec;
                let ghost prev = tracked_vars@;
                tracked_vars.push(rec);
                assert(tracked_vars@.map_values(|p: VarSGDMomentum| p.var) =~= prev.map_values(
                    |p: VarSGDMomentum| p.var,
                ).push(vars@[i as int]));
                proof {
                    assert(tracked_vars@[prev.len() as int] == grec);
                    assert(var_id(grec.var) == var_id(vars@[i as int]));
                    assert forall|j: int|
                        0 <= j < tracked_vars@.len() implies id_among(
                        tracked_vars@[j].var,
                        vars@,
                        i + 1,
                    ) by {
                        if j < prev.len() {
                            assert(tracked_vars@[j] == prev[j]);
                            assert(id_among(prev[j].var, vars@, i as int));
                            let l = choose|l: int|
                                0 <= l < i && var_id(prev[j].var) == var_id(vars@[l]);
                            assert(0 <= l < i + 1 && var_id(tracked_vars@[j].var) == var_id(
                                vars@[l],
                            ));
                        } else {
                            assert(0 <= i < i + 1 && var_id(tracked_vars@[j].var) == var_id(
                                vars@[i as int],
                            ));
                        }
                    }
                    assert forall|j1: int, j2: int|
                        0 <= j1 < j2 < tracked_vars@.len() implies var_id(tracked_vars@[j1].var)
                        != var_id(tracked_vars@[j2].var) by {
                        if j2 < prev.len() {
                            assert(tracked_vars@[j1] == prev[j1]);
                            assert(tracked_vars@[j2] == prev[j2]);
                        } else {
                            assert(tracked_vars@[j2] == grec);
                            assert(tracked_vars@[j1] == prev[j1]);
                            assert(id_among(prev[j1].var, vars@, i as int));
                            let l = choose|l: int|
                                0 <= l < i && var_id(prev[j1].var) == var_id(vars@[l]);
                            assert(var_id(vars@[l]) != var_id(vars@[i as int]));
                        }
                    }
                }
            }
            i = i + 1;
        }
        assert(vars@.take(n as int) =~= vars@);
        Ok(SGDMomentum { vars: tracked_vars, step_t: 0, params })
    }

    /// Builds an optimizer with the given learning rate and the default
    /// momentum coefficient.
    pub fn new_lr(vars: Vec<candle_core::Var>, learning_rate: Ratio) -> (r: Result<
        Self,
        OptimError,
    >)
        requires
            distinct_var_ids(vars@),
            learning_rate.den > 0,
        ensures
            match r {
                Ok(o) => {
                    &&& o.step_t == 0
                    &&& o.params == (ParamsSGDMomentum {
                        lr: learning_rate,
                        beta: Ratio { num: 1, den: 10 },
                    })
                    &&& o.vars@.map_values(|p: VarSGDMomentum| p.var) == float_vars(vars@)
                    &&& forall|i: int|
                        0 <= i < o.vars@.len() ==> tensor_val(
                            #[trigger] o.vars@[i].first_moment,
                        ) == zeros_val(var_val(o.vars@[i].var))
                    &&& momentum_wf(o)
                },
                Err(e) => e is Allocation,
            },
            (forall|i: int|
                0 <= i < vars@.len() ==> !val_is_float(var_val(#[trigger] vars@[i]))) ==> r is Ok,
    {
        let defaults = ParamsSGDMomentum::default();
        Self::new(vars, ParamsSGDMomentum { lr: learning_rate, beta: defaults.beta })
    }

    /// The current base learning rate.
    pub fn learning_rate(&self) -> (r: Ratio)
        ensures
            r == self.params.lr,
    {
        self.params.lr
    }

    /// Overwrites the base learning rate; effective from the next step.
    pub fn set_learning_rate(&mut self, lr: Ratio)
        requires
            lr.den > 0,
        ensures
            final(self).params.lr == lr,
            final(self).params.beta == old(self).params.beta,
            final(self).vars@ == old(self).vars@,
            final(self).step_t == old(self).step_t,
    {
        self.params.lr = lr;
    }

    /// The current hyperparameters.
    pub fn params(&self) -> (r: &ParamsSGDMomentum)
        ensures
            *r == self.params,
    {
        &self.params
    }

    /// Replaces the hyperparameters wholesale; effective from the next step.
    pub fn set_params(&mut self, params: ParamsSGDMomentum)
        requires
            params_wf(params),
        ensures
            final(self).params == params,
            final(self).vars@ == old(self).vars@,
            final(self).step_t == old(self).step_t,
    {
        self.params = params;
    }

    /// One step over a gradient lookup already translated into this
    /// optimizer's index space: slot `i` of `grads` is the gradient of
    /// parameter `i`, or `None` if that parameter took no part in the loss.
    /// Every present gradient is deep-copied before the first in-place write,
    /// so a gradient that shares storage with a parameter cannot be changed
    /// mid-step.
    ///
    /// On success every tracked parameter is updated in place exactly by the
    /// momentum rule with its own gradient, and parameters without one are
    /// left bit-for-bit untouched.  On failure some prefix of the parameters
    /// has been updated and the rest - the failing one included - are
    /// untouched; the counter advances either way.
    pub fn step_indexed(&mut self, grads: &Vec<Option<candle_core::Tensor>>) -> (r: Result<
        (),
        OptimError,
    >)
        requires
            old(self).step_t < u32::MAX,
            momentum_wf(*old(self)),
            grads@.len() == old(self).vars@.len(),
        ensures
            final(self).step_t == old(self).step_t + 1,
            final(self).params == old(self).params,
            final(self).vars@.len() == old(self).vars@.len(),
            momentum_wf(*final(self)),
            r is Ok ==> forall|i: int|
                0 <= i < old(self).vars@.len() ==> momentum_stepped(
                    old(self).vars@[i],
                    #[trigger] final(self).vars@[i],
                    grads@[i],
                    old(self).params,
                ),
            (forall|i: int|
                0 <= i < grads@.len() ==> (#[trigger] grads@[i]) is None) ==> r is Ok,
            r matches Err(e) ==> e is Arithmetic && exists|k: int|
                momentum_stepped_up_to(*old(self), *final(self), grads@, k),
    {
        self.step_t = self.step_t + 1;
        let lr = self.params.lr;
        let beta = self.params.beta;
        let n = self.vars.len();
        let mut owned_grads: Vec<Option<candle_core::Tensor>> = Vec::new();
        let mut c: usize = 0;
        while c < n
            invariant
                c <= n,
                n == old(self).vars@.len(),
                grads@.len() == n,
                self.vars@ == old(self).vars@,
                self.step_t == old(self).step_t + 1,
                self.params == old(self).params,
                momentum_wf(*old(self)),
                owned_grads@.len() == c,
                forall|j: int|
                    0 <= j < c ==> grad_slot_val_eq(#[trigger] owned_grads@[j], grads@[j]),
            decreases n - c,
        {
            match &grads[c] {
                None => {
                    owned_grads.push(None);
                },
                Some(g) => {
                    match tensor_copy(g) {
                        Ok(cp) => {
                            owned_grads.push(Some(cp));
                        },
                        Err(e) => {
                            assert(momentum_stepped_up_to(*old(self), *self, grads@, 0));
                            return Err(OptimError::Arithmetic(e));
                        },
                    }
                },
            }
            c = c + 1;
        }
        let mut i: usize = 0;
        while i < n
            invariant
                i <= n,
                n == old(self).vars@.len(),
                self.vars@.len() == n,
                grads@.len() == n,
                owned_grads@.len() == n,
                self.step_t == old(self).step_t + 1,
                self.params == old(self).params,
                lr == old(self).params.lr,
                beta == old(self).params.beta,
                momentum_wf(*old(self)),
                forall|j: int|
                    0 <= j < n ==> grad_slot_val_eq(#[trigger] owned_grads@[j], grads@[j]),
                forall|j: int|
                    0 <= j < i ==> momentum_stepped(
                        old(self).vars@[j],
                        #[trigger] self.vars@[j],
                        grads@[j],
                        old(self).params,
                    ),
                forall|j: int|
                    i <= j < n ==> (#[trigger] self.vars@[j]) == old(self).vars@[j],
                forall|j: int| 0 <= j < n ==> momentum_rec_wf(#[trigger] self.vars@[j]),
                forall|j: int|
                    0 <= j < n ==> var_id((#[trigger] self.vars@[j]).var) == var_id(
                        old(self).vars@[j].var,
                    ),
            decreases n - i,
        {
            match &owned_grads[i] {
                None => {},
                Some(g) => {
                    let scaled_m = match scale(&self.vars[i].first_moment, beta.num, beta.den) {
                        Ok(t) => t,
                        Err(e) => {
                            proof {
                                lemma_momentum_distinct_preserved(old(self).vars@, self.vars@);
                                assert(momentum_stepped_up_to(*old(self), *self, grads@, i as int));
                            }
                            return Err(OptimError::Arithmetic(e));
                        },
                    };
                    let next_m = match tensor_add(&scaled_m, g) {
                        Ok(t) => t,
                        Err(e) => {
                            proof {
                                lemma_momentum_distinct_preserved(old(self).vars@, self.vars@);
                                assert(momentum_stepped_up_to(*old(self), *self, grads@, i as int));
                            }
                            return Err(OptimError::Arithmetic(e));
                        },
                    };
                    let update = match scale(&next_m, lr.num, lr.den) {
                        Ok(t) => t,
                        Err(e) => {
                            proof {
                                lemma_momentum_distinct_preserved(old(self).vars@, self.vars@);
                                assert(momentum_stepped_up_to(*old(self), *self, grads@, i as int));
                            }
                            return Err(OptimError::Arithmetic(e));
                        },
                    };
                    let theta = var_value(&self.vars[i].var);
                    let next_theta = match tensor_sub(&theta, &update) {
                        Ok(t) => t,
                        Err(e) => {
                            proof {
                                lemma_momentum_distinct_preserved(old(self).vars@, self.vars@);
                                assert(momentum_stepped_up_to(*old(self), *self, grads@, i as int));
                            }
                            return Err(OptimError::Arithmetic(e));
                        },
                    };
                    let set_res = var_set(&mut self.vars[i].var, &next_theta);
                    match set_res {
                        Ok(()) => {},
                        Err(e) => {
                            proof {
                                lemma_momentum_distinct_preserved(old(self).vars@, self.vars@);
                                assert(momentum_stepped_up_to(*old(self), *self, grads@, i as int));
                            }
                            return Err(OptimError::Arithmetic(e));
                        },
                    };
                    self.vars[i].first_moment = next_m;
                },
            }
            i = i + 1;
        }
        proof {
            lemma_momentum_distinct_preserved(old(self).vars@, self.vars@);
        }
        Ok(())
    }

    /// One step over a gradient store keyed by parameter identity.  The
    /// store is translated once into this optimizer's index space and the
    /// step is taken there; the contract is exact per identity: a tracked
    /// parameter whose identity the store holds is updated in place by the
    /// momentum rule with the recorded gradient, every other one is left
    /// bit-for-bit untouched.
    pub fn step(&mut self, grads: &candle_core::backprop::GradStore) -> (r: Result<(), OptimError>)
        requires
            old(self).step_t < u32::MAX,
            momentum_wf(*old(self)),
        ensures
            final(self).step_t == old(self).step_t + 1,
            final(self).params == old(self).params,
            final(self).vars@.len() == old(self).vars@.len(),
            momentum_wf(*final(self)),
            r is Ok ==> momentum_store_stepped_all(
                *old(self),
                *final(self),
                grad_store_val(*grads),
            ),
            r matches Err(e) ==> e is Arithmetic && exists|k: int|
                momentum_store_stepped_up_to(*old(self), *final(self), grad_store_val(*grads), k),
    {
        let lookup = self.collect_grads(grads);
        let r = self.step_indexed(&lookup);
        proof {
            let pre = *old(self);
            let store = grad_store_val(*grads);
            match r {
                Ok(()) => {
                    assert forall|i: int|
                        0 <= i < pre.vars@.len() implies momentum_store_stepped(
                        pre.vars@[i],
                        self.vars@[i],
                        store,
                        pre.params,
                    ) by {
                        assert(momentum_stepped(pre.vars@[i], self.vars@[i], lookup@[i], pre.params));
                    }
                },
                Err(_) => {
                    let k = choose|k: int|
                        momentum_stepped_up_to(pre, *self, lookup@, k);
                    assert forall|i: int|
                        0 <= i < k implies momentum_store_stepped(
                        pre.vars@[i],
                        self.vars@[i],
                        store,
                        pre.params,
                    ) by {
                        assert(momentum_stepped(pre.vars@[i], self.vars@[i], lookup@[i], pre.params));
                    }
                    assert(momentum_store_stepped_up_to(pre, *self, store, k));
                },
            }
        }
        r
    }

    /// Translates a gradient store into this optimizer's index space: slot
    /// `i` receives exactly what the store holds for parameter `i`'s
    /// identity.
    fn collect_grads(&self, grads: &candle_core::backprop::GradStore) -> (r: Vec<
        Option<candle_core::Tensor>,
    >)
        ensures
            r@.len() == self.vars@.len(),
            forall|i: int|
                0 <= i < r@.len() ==> match #[trigger] r@[i] {
                    Some(g) => grad_store_val(*grads).contains_key(var_id(self.vars@[i].var))
                        && tensor_val(g) == grad_store_val(*grads)[var_id(self.vars@[i].var)],
                    None => !grad_store_val(*grads).contains_key(var_id(self.vars@[i].var)),
                },
    {
        let mut lookup: Vec<Option<candle_core::Tensor>> = Vec::new();
        let n = self.vars.len();
        let mut i: usize = 0;
        while i < n
            invariant
                i <= n,
                n == self.vars@.len(),
                lookup@.len() == i,
                forall|j: int|
                    0 <= j < i ==> match #[trigger] lookup@[j] {
                        Some(g) => grad_store_val(*grads).contains_key(var_id(self.vars@[j].var))
                            && tensor_val(g) == grad_store_val(*grads)[var_id(self.vars@[j].var)],
                        None => !grad_store_val(*grads).contains_key(var_id(self.vars@[j].var)),
                    },
            decreases n - i,
        {
            lookup.push(grad_get(grads, &self.vars[i].var));
            i = i + 1;
        }
        lookup
    }

    /// Differentiates `loss` and takes one step with the resulting
    /// gradients: there is a store - the one differentiation produced - whose
    /// contents the step followed exactly, per identity.  If differentiation
    /// fails, no parameter or auxiliary state is touched.
    pub fn backward_step(&mut self, loss: &candle_core::Tensor) -> (r: Result<(), OptimError>)
        requires
            old(self).step_t < u32::MAX,
            momentum_wf(*old(self)),
        ensures
            match r {
                Ok(()) => {
                    &&& final(self).step_t == old(self).step_t + 1
                    &&& final(self).params == old(self).params
                    &&& final(self).vars@.len() == old(self).vars@.len()
                    &&& momentum_wf(*final(self))
                    &&& exists|m: Map<int, Seq<u64>>|
                        momentum_store_stepped_all(*old(self), *final(self), m)
                },
                Err(e) => match e {
                    OptimError::Differentiation(_) => *final(self) == *old(self),
                    OptimError::Arithmetic(_) => {
                        &&& final(self).step_t == old(self).step_t + 1
                        &&& final(self).params == old(self).params
                        &&& final(self).vars@.len() == old(self).vars@.len()
                        &&& momentum_wf(*final(self))
                        &&& exists|m: Map<int, Seq<u64>>, k: int|
                            momentum_store_stepped_up_to(*old(self), *final(self), m, k)
                    },
                    OptimError::Allocation(_) => false,
                },
            },
    {
        let grads = match crate::tensor_ops::backward(loss) {
            Ok(g) => g,
            Err(e) => {
                return Err(OptimError::Differentiation(e));
            },
        };
        self.step(&grads)
    }
}

impl crate::optimizer::Optimizer for SGDMomentum {
    open spec fn lr_spec(&self) -> Ratio {
        self.params.lr
    }

    open spec fn steps_spec(&self) -> u32 {
        self.step_t
    }

    open spec fn ready_spec(&self) -> bool {
        momentum_wf(*self)
    }

    fn learning_rate(&self) -> Ratio {
        SGDMomentum::learning_rate(self)
    }

    fn set_learning_rate(&mut self, lr: Ratio) {
        SGDMomentum::set_learning_rate(self, lr)
    }

    fn step(&mut self, grads: &candle_core::backprop::GradStore) -> Result<(), OptimError> {
        SGDMomentum::step(self, grads)
    }

    fn backward_step(&mut self, loss: &candle_core::Tensor) -> Result<(), OptimError> {
        SGDMomentum::backward_step(self, loss)
    }
}

} // verus!
