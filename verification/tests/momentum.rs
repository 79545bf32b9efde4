use candle_core::Device;
use candle_core::Tensor;
use candle_core::Var;
use candle_free_scheduler::momentum::ParamsSGDMomentum;
use candle_free_scheduler::momentum::SGDMomentum;
use candle_free_scheduler::optim_error::OptimError;
use candle_free_scheduler::ratio::Ratio;

fn float_var(values: &[f32]) -> Var {
    Var::from_tensor(&Tensor::new(values, &Device::Cpu).unwrap()).unwrap()
}

fn close(a: f32, b: f32) -> bool {
    (a - b).abs() < 1e-5
}

#[test]
fn construction_tracks_only_float_parameters() {
    let float_param = float_var(&[1.0, 2.0]);
    let int_param = Var::from_tensor(&Tensor::new(&[1u32, 2], &Device::Cpu).unwrap()).unwrap();
    let opt = SGDMomentum::new(
        vec![int_param, float_param, Var::from_tensor(&Tensor::new(&[3u32], &Device::Cpu).unwrap()).unwrap()],
        ParamsSGDMomentum::default(),
    )
    .unwrap();
    assert_eq!(opt.vars.len(), 1);
    assert_eq!(opt.vars[0].var.to_vec1::<f32>().unwrap(), vec![1.0, 2.0]);
    // The moment starts as zeros shaped like the parameter.
    assert_eq!(opt.vars[0].first_moment.to_vec1::<f32>().unwrap(), vec![0.0, 0.0]);
}

#[test]
fn empty_optimizer_is_valid_and_steps_as_a_noop() {
    let mut opt = SGDMomentum::new(vec![], ParamsSGDMomentum::default()).unwrap();
    assert_eq!(opt.vars.len(), 0);
    let grads: Vec<Option<Tensor>> = vec![];
    opt.step_indexed(&grads).unwrap();
    assert_eq!(opt.step_t, 1);
}

#[test]
fn one_step_from_zero_moment_uses_the_gradient_itself() {
    // With m = 0, beta = 0.1, lr = 0.001: m' = g and theta' = theta - 0.001 * g.
    let v = float_var(&[1.0, 2.0]);
    let w = Tensor::new(&[3.0f32, 4.0], &Device::Cpu).unwrap();
    let mut opt = SGDMomentum::new(vec![v.clone()], ParamsSGDMomentum::default()).unwrap();
    let loss = (v.as_tensor() * &w).unwrap().sum_all().unwrap();
    opt.backward_step(&loss).unwrap();
    let m = opt.vars[0].first_moment.to_vec1::<f32>().unwrap();
    assert!(close(m[0], 3.0) && close(m[1], 4.0));
    let theta = v.to_vec1::<f32>().unwrap();
    assert!(close(theta[0], 1.0 - 0.003) && close(theta[1], 2.0 - 0.004));
    assert_eq!(opt.step_t, 1);
}

#[test]
fn second_step_accumulates_the_moment() {
    // Two steps with constant gradient g: m2 = beta * g + g, theta2 uses m2.
    let v = float_var(&[1.0]);
    let g = Tensor::new(&[2.0f32], &Device::Cpu).unwrap();
    let mut opt = SGDMomentum::new(vec![v.clone()], ParamsSGDMomentum::default()).unwrap();
    opt.step_indexed(&vec![Some(g.clone())]).unwrap();
    opt.step_indexed(&vec![Some(g)]).unwrap();
    let m = opt.vars[0].first_moment.to_vec1::<f32>().unwrap();
    assert!(close(m[0], 0.1 * 2.0 + 2.0));
    let theta = v.to_vec1::<f32>().unwrap();
    assert!(close(theta[0], 1.0 - 0.001 * 2.0 - 0.001 * 2.2));
    assert_eq!(opt.step_t, 2);
}

#[test]
fn parameter_absent_from_the_lookup_is_untouched() {
    let used = float_var(&[1.0, 2.0]);
    let unused = float_var(&[7.5, -0.25]);
    let w = Tensor::new(&[3.0f32, 4.0], &Device::Cpu).unwrap();
    let mut opt =
        SGDMomentum::new(vec![used.clone(), unused.clone()], ParamsSGDMomentum::default()).unwrap();
    let loss = (used.as_tensor() * &w).unwrap().sum_all().unwrap();
    opt.backward_step(&loss).unwrap();
    // The used parameter moved...
    assert!(close(used.to_vec1::<f32>().unwrap()[0], 1.0 - 0.003));
    // ...the unused one and its moment are exactly as before.
    assert_eq!(unused.to_vec1::<f32>().unwrap(), vec![7.5, -0.25]);
    assert_eq!(opt.vars[1].first_moment.to_vec1::<f32>().unwrap(), vec![0.0, 0.0]);
}

#[test]
fn absent_slot_in_an_indexed_lookup_is_untouched() {
    let v = float_var(&[4.0]);
    let mut opt = SGDMomentum::new(vec![v.clone()], ParamsSGDMomentum::default()).unwrap();
    opt.step_indexed(&vec![None]).unwrap();
    assert_eq!(v.to_vec1::<f32>().unwrap(), vec![4.0]);
    assert_eq!(opt.step_t, 1);
}

#[test]
fn set_learning_rate_takes_effect_on_the_next_step() {
    let v = float_var(&[10.0]);
    let g = Tensor::new(&[2.0f32], &Device::Cpu).unwrap();
    let params = ParamsSGDMomentum { lr: Ratio { num: 1, den: 2 }, beta: Ratio { num: 1, den: 10 } };
    let mut opt = SGDMomentum::new(vec![v.clone()], params).unwrap();
    // A step before the change uses the prior rate: theta' = 10 - 0.5 * 2.
    opt.step_indexed(&vec![Some(g.clone())]).unwrap();
    assert!(close(v.to_vec1::<f32>().unwrap()[0], 9.0));
    opt.set_learning_rate(Ratio { num: 1, den: 4 });
    assert_eq!(opt.learning_rate(), Ratio { num: 1, den: 4 });
    // The next step uses the new rate: m' = 0.1 * 2 + 2 = 2.2, theta' = 9 - 0.25 * 2.2.
    opt.step_indexed(&vec![Some(g)]).unwrap();
    assert!(close(v.to_vec1::<f32>().unwrap()[0], 9.0 - 0.25 * 2.2));
}

#[test]
fn new_lr_keeps_the_default_momentum_coefficient() {
    let v = float_var(&[1.0]);
    let opt = SGDMomentum::new_lr(vec![v], Ratio { num: 1, den: 100 }).unwrap();
    assert_eq!(opt.params().lr, Ratio { num: 1, den: 100 });
    assert_eq!(opt.params().beta, Ratio { num: 1, den: 10 });
}

#[test]
fn set_params_replaces_the_hyperparameters() {
    let v = float_var(&[1.0]);
    let mut opt = SGDMomentum::new(vec![v], ParamsSGDMomentum::default()).unwrap();
    let fresh = ParamsSGDMomentum { lr: Ratio { num: 3, den: 7 }, beta: Ratio { num: 2, den: 5 } };
    opt.set_params(fresh);
    assert_eq!(*opt.params(), fresh);
}

#[test]
fn mismatched_gradient_shape_is_an_arithmetic_error() {
    let v = float_var(&[1.0, 2.0]);
    let bad = Tensor::new(&[1.0f32, 2.0, 3.0], &Device::Cpu).unwrap();
    let mut opt = SGDMomentum::new(vec![v.clone()], ParamsSGDMomentum::default()).unwrap();
    let r = opt.step_indexed(&vec![Some(bad)]);
    assert!(matches!(r, Err(OptimError::Arithmetic(_))));
    // The step failed but the parameter was left untouched; the counter moved.
    assert_eq!(v.to_vec1::<f32>().unwrap(), vec![1.0, 2.0]);
    assert_eq!(opt.step_t, 1);
}

#[test]
fn undifferentiable_loss_is_a_differentiation_error_and_touches_nothing() {
    let v = Var::from_tensor(&Tensor::new(&[[[1.5f32, 2.5]]], &Device::Cpu).unwrap()).unwrap();
    let kernel = Tensor::new(&[[[1.0f32, 1.0]]], &Device::Cpu).unwrap();
    let mut opt = SGDMomentum::new(vec![v.clone()], ParamsSGDMomentum::default()).unwrap();
    // candle has no backward rule for transposed convolutions, so
    // differentiation fails.
    let loss = v
        .as_tensor()
        .conv_transpose1d(&kernel, 0, 0, 1, 1, 1)
        .unwrap()
        .sum_all()
        .unwrap();
    let r = opt.backward_step(&loss);
    match &r {
        Err(OptimError::Differentiation(_)) => {}
        other => panic!("expected a differentiation error, got {other:?}"),
    }
    assert_eq!(opt.step_t, 0);
    assert_eq!(v.to_vec3::<f32>().unwrap(), vec![vec![vec![1.5, 2.5]]]);
    assert_eq!(opt.vars[0].first_moment.to_vec3::<f32>().unwrap(), vec![vec![vec![0.0, 0.0]]]);
}
