//! The trusted boundary to the candle tensor engine.
//!
//! A tensor is opaque here.  Its contents - element type, shape, device and
//! elements together - are modelled by the uninterpreted sequence `tensor_val`
//! (`var_val` for a mutable variable); each arithmetic wrapper names its
//! result as a function of the operands' contents alone.  Nothing is assumed
//! about those functions beyond that, so every claim the optimizers prove is
//! about which operands are combined, in which order, and which cells are
//! written - never about floating-point values.
//!
//! A variable is a shared handle with interior mutability: `Var::set` writes
//! the storage behind the handle, and every clone of the handle observes the
//! write.  The model therefore keeps the engine's per-process identity
//! (`var_id`) apart from the contents: distinct identities hold distinct
//! storage (every way candle makes a fresh variable allocates fresh storage,
//! and `Var::from_tensor` on a variable returns that same variable), so the
//! optimizers demand pairwise-distinct identities of what they track, and
//! they deep-copy every supplied gradient before the first in-place write so
//! that no later write can reach an operand through a shared handle.  What
//! the contracts cannot exclude is a caller planting, through the public
//! state fields, an auxiliary tensor that shares a tracked variable's
//! storage: the engine exposes no storage identity to state that apart.

use vstd::prelude::*;

verus! {

#[verifier::external_type_specification]
#[verifier::external_body]
pub struct ExTensor(candle_core::Tensor);

#[verifier::external_type_specification]
#[verifier::external_body]
pub struct ExVar(candle_core::Var);

#[verifier::external_type_specification]
#[verifier::external_body]
pub struct ExGradStore(candle_core::backprop::GradStore);

#[verifier::external_type_specification]
#[verifier::external_body]
pub struct ExCandleError(candle_core::Error);

/// The contents of a tensor: element type, shape, device and elements,
/// abstractly encoded one cell per sequence element.
pub uninterp spec fn tensor_val(t: candle_core::Tensor) -> Seq<u64>;

/// The contents of a mutable variable, encoded as `tensor_val`.
pub uninterp spec fn var_val(v: candle_core::Var) -> Seq<u64>;

/// The engine's per-process identity of a variable: clones share it and
/// `set` preserves it, and distinct identities hold distinct storage.
/// Nothing relates identities across processes.
pub uninterp spec fn var_id(v: candle_core::Var) -> int;

/// The contents of a gradient store: a map from variable identity to the
/// contents of the gradient recorded for that identity.
pub uninterp spec fn grad_store_val(s: candle_core::backprop::GradStore) -> Map<int, Seq<u64>>;

/// Whether contents so encoded have a floating-point element type.
pub uninterp spec fn val_is_float(a: Seq<u64>) -> bool;

/// The contents of a zero-filled tensor with the element type, shape and
/// device of contents `a`.
pub uninterp spec fn zeros_val(a: Seq<u64>) -> Seq<u64>;

/// The contents of a tensor with contents `a` scaled elementwise by the
/// rational `num / den`, the quotient evaluated in the tensor's element type.
pub uninterp spec fn scale_val(a: Seq<u64>, num: u32, den: u32) -> Seq<u64>;

/// The contents of the elementwise sum of contents `a` and `b`.
pub uninterp spec fn add_val(a: Seq<u64>, b: Seq<u64>) -> Seq<u64>;

/// The contents of the elementwise difference of contents `a` and `b`.
pub uninterp spec fn sub_val(a: Seq<u64>, b: Seq<u64>) -> Seq<u64>;

/// The subsequence of `s` whose variables have a floating-point element type,
/// in order.  Only these are tracked by an optimizer.
pub open spec fn float_vars(s: Seq<candle_core::Var>) -> Seq<candle_core::Var>
    decreases s.len(),
{
    if s.len() == 0 {
        Seq::empty()
    } else if val_is_float(var_val(s.last())) {
        float_vars(s.drop_last()).push(s.last())
    } else {
        float_vars(s.drop_last())
    }
}

/// No two of the variables are the same engine variable.
pub open spec fn distinct_var_ids(s: Seq<candle_core::Var>) -> bool {
    forall|i: int, j: int| 0 <= i < j < s.len() ==> var_id(s[i]) != var_id(s[j])
}

/// Relies on `Clone` for `candle_core::Var`: cloning copies the handle, so
/// the clone is the same variable.
#[verifier::external_body]
pub(crate) fn var_clone(v: &candle_core::Var) -> (r: candle_core::Var)
    ensures
        r == *v,
{
    v.clone()
}

/// Relies on `candle_core::Tensor::id` (through `Var`'s deref) and equality
/// of the engine's tensor identifiers: whether two handles are the same
/// variable.
#[verifier::external_body]
pub(crate) fn vars_same_id(a: &candle_core::Var, b: &candle_core::Var) -> (r: bool)
    ensures
        r == (var_id(*a) == var_id(*b)),
{
    a.id() == b.id()
}

/// Relies on `candle_core::Var::dtype` and `candle_core::DType::is_float`:
/// whether the variable's element type is floating point, a fact of the
/// variable's contents alone.
#[verifier::external_body]
pub(crate) fn var_is_float(v: &candle_core::Var) -> (r: bool)
    ensures
        r == val_is_float(var_val(*v)),
{
    v.dtype().is_float()
}

/// Relies on `candle_core::Tensor::dtype` and `DType::is_float`, as
/// `var_is_float` does.
#[verifier::external_body]
pub(crate) fn tensor_is_float(t: &candle_core::Tensor) -> (r: bool)
    ensures
        r == val_is_float(tensor_val(*t)),
{
    t.dtype().is_float()
}

/// Relies on `candle_core::Tensor::zeros` (with `Var::shape`, `Var::dtype`,
/// `Var::device`): a zero-filled tensor shaped like `v`, in `v`'s element
/// type, on `v`'s device.
#[verifier::external_body]
pub(crate) fn zeros_like(v: &candle_core::Var) -> (r: Result<
    candle_core::Tensor,
    candle_core::Error,
>)
    ensures
        r matches Ok(t) ==> tensor_val(t) == zeros_val(var_val(*v)) && val_is_float(
            tensor_val(t),
        ) == val_is_float(var_val(*v)),
{
    candle_core::Tensor::zeros(v.shape(), v.dtype(), v.device())
}

/// Relies on `candle_core::Var::as_tensor`: the tensor currently held by the
/// variable (cloning a tensor copies the handle to its storage).
#[verifier::external_body]
pub(crate) fn var_value(v: &candle_core::Var) -> (r: candle_core::Tensor)
    ensures
        tensor_val(r) == var_val(*v),
{
    v.as_tensor().clone()
}

/// Relies on `candle_core::Tensor::copy`: a deep copy with the same
/// contents, in freshly allocated storage of its own, so no later in-place
/// write to any variable can change it.  Errors only if the allocation
/// fails; no element type panics.
#[verifier::external_body]
pub(crate) fn tensor_copy(t: &candle_core::Tensor) -> (r: Result<
    candle_core::Tensor,
    candle_core::Error,
>)
    ensures
        r matches Ok(c) ==> tensor_val(c) == tensor_val(*t),
{
    t.copy()
}

/// Relies on `candle_core::Var::set`: overwrites the variable's contents
/// with those of `t`, in place - the handle keeps its identity.  Every error
/// path in `set` (same-storage, non-contiguous, shape, element type, device
/// mismatch) returns before anything is copied, so on failure the variable
/// is unchanged.
#[verifier::external_body]
pub(crate) fn var_set(v: &mut candle_core::Var, t: &candle_core::Tensor) -> (r: Result<
    (),
    candle_core::Error,
>)
    ensures
        var_id(*final(v)) == var_id(*old(v)),
        r is Ok ==> var_val(*final(v)) == tensor_val(*t),
        r is Err ==> *final(v) == *old(v),
{
    v.set(t)
}

/// Relies on `candle_core::Tensor::broadcast_mul`, `broadcast_div`,
/// `to_dtype` and `Tensor::new`: multiplies every element of `t` by the
/// rational `num / den`, the quotient evaluated in `t`'s own element type on
/// `t`'s device - a function of `t`, `num` and `den` alone, in `t`'s element
/// type.  The operand must be floating point and the denominator nonzero:
/// candle's integer elementwise kernels use plain machine arithmetic, which
/// panics on division by zero (and, in debug builds, on overflow), while the
/// floating-point kernels never panic.
#[verifier::external_body]
pub(crate) fn scale(t: &candle_core::Tensor, num: u32, den: u32) -> (r: Result<
    candle_core::Tensor,
    candle_core::Error,
>)
    requires
        val_is_float(tensor_val(*t)),
        den > 0,
    ensures
        r matches Ok(s) ==> tensor_val(s) == scale_val(tensor_val(*t), num, den) && val_is_float(
            tensor_val(s),
        ),
{
    let n = candle_core::Tensor::new(num, t.device())?.to_dtype(t.dtype())?;
    let d = candle_core::Tensor::new(den, t.device())?.to_dtype(t.dtype())?;
    t.broadcast_mul(&n.broadcast_div(&d)?)
}

/// Relies on `std::ops::Add` for `&candle_core::Tensor`: elementwise sum.
/// Mismatched shapes, element types or devices are an `Err` before any
/// arithmetic; on success the operands' element types matched and the result
/// is in that type.  The left operand must be floating point so that no
/// integer kernel (which can panic in debug builds) is reached.
#[verifier::external_body]
pub(crate) fn tensor_add(a: &candle_core::Tensor, b: &candle_core::Tensor) -> (r: Result<
    candle_core::Tensor,
    candle_core::Error,
>)
    requires
        val_is_float(tensor_val(*a)),
    ensures
        r matches Ok(s) ==> tensor_val(s) == add_val(tensor_val(*a), tensor_val(*b))
            && val_is_float(tensor_val(s)) && val_is_float(tensor_val(*b)) == val_is_float(
            tensor_val(*a),
        ),
{
    a + b
}

/// Relies on `std::ops::Sub` for `&candle_core::Tensor`: elementwise
/// difference, under the same conditions as the sum.
#[verifier::external_body]
pub(crate) fn tensor_sub(a: &candle_core::Tensor, b: &candle_core::Tensor) -> (r: Result<
    candle_core::Tensor,
    candle_core::Error,
>)
    requires
        val_is_float(tensor_val(*a)),
    ensures
        r matches Ok(s) ==> tensor_val(s) == sub_val(tensor_val(*a), tensor_val(*b))
            && val_is_float(tensor_val(s)) && val_is_float(tensor_val(*b)) == val_is_float(
            tensor_val(*a),
        ),
{
    a - b
}

/// Relies on `candle_core::Tensor::backward`: the gradients of `loss` with
/// respect to the variables it was computed from.  Which store comes back is
/// not named: the engine's parallel kernels do not promise one result per
/// loss value on every device, so callers learn the store's contents only
/// through `grad_get`.
#[verifier::external_body]
pub(crate) fn backward(loss: &candle_core::Tensor) -> (r: Result<
    candle_core::backprop::GradStore,
    candle_core::Error,
>) {
    loss.backward()
}

/// Relies on `candle_core::backprop::GradStore::get`: the store is a map
/// keyed by the engine's tensor identity, and `get` returns the entry
/// recorded for this variable's identity, if any.
#[verifier::external_body]
pub(crate) fn grad_get(grads: &candle_core::backprop::GradStore, v: &candle_core::Var) -> (r:
    Option<candle_core::Tensor>)
    ensures
        match r {
            Some(g) => grad_store_val(*grads).contains_key(var_id(*v)) && tensor_val(g)
                == grad_store_val(*grads)[var_id(*v)],
            None => !grad_store_val(*grads).contains_key(var_id(*v)),
        },
{
    grads.get(v).cloned()
}

/// True exactly when no two of the given variables are the same engine
/// variable.  An optimizer demands this of what it tracks: two handles to
/// one variable would be updated through one shared storage.
pub fn vars_have_distinct_ids(vars: &Vec<candle_core::Var>) -> (r: bool)
    ensures
        r == distinct_var_ids(vars@),
{
    let n = vars.len();
    let mut i: usize = 0;
    while i < n
        invariant
            i <= n,
            n == vars@.len(),
            forall|a: int, b: int| 0 <= a < b < vars@.len() && a < i ==> var_id(vars@[a])
                != var_id(vars@[b]),
        decreases n - i,
    {
        let mut j: usize = i + 1;
        while j < n
            invariant
                i < j <= n || (i + 1 == j && j <= n),
                i < n,
                n == vars@.len(),
                i + 1 <= j,
                forall|a: int, b: int| 0 <= a < b < vars@.len() && a < i ==> var_id(vars@[a])
                    != var_id(vars@[b]),
                forall|b: int| i < b < j ==> var_id(vars@[i as int]) != var_id(vars@[b]),
            decreases n - j,
        {
            if vars_same_id(&vars[i], &vars[j]) {
                return false;
            }
            j = j + 1;
        }
        i = i + 1;
    }
    true
}

} // verus!
