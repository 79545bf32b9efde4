use candle_core::Device;
use candle_core::Tensor;
use candle_core::Var;
use candle_free_scheduler::ratio::Ratio;
use candle_free_scheduler::schedule_free::ParamsSGDSchedulerFree;
use candle_free_scheduler::schedule_free::SGDSchedulerFree;

fn float_var(values: &[f32]) -> Var {
    Var::from_tensor(&Tensor::new(values, &Device::Cpu).unwrap()).unwrap()
}

fn close(a: f32, b: f32) -> bool {
    (a - b).abs() < 1e-5
}

#[test]
fn construction_tracks_only_float_parameters_with_zero_state() {
    let float_param = float_var(&[1.0, 2.0]);
    let int_param = Var::from_tensor(&Tensor::new(&[4u32], &Device::Cpu).unwrap()).unwrap();
    let opt = SGDSchedulerFree::new(
        vec![float_param, int_param],
        ParamsSGDSchedulerFree::default(),
    )
    .unwrap();
    assert_eq!(opt.vars.len(), 1);
    assert_eq!(opt.vars[0].x.to_vec1::<f32>().unwrap(), vec![0.0, 0.0]);
    assert_eq!(opt.vars[0].z.to_vec1::<f32>().unwrap(), vec![0.0, 0.0]);
}

#[test]
fn first_step_average_equals_the_descent_iterate() {
    // At step_t = 1 the averaging weight c = 1/1 discards the running average
    // entirely: x' == z' exactly, whatever x held before the step.
    let v = float_var(&[1.0, -2.0]);
    let mut opt = SGDSchedulerFree::new(vec![v], ParamsSGDSchedulerFree::default()).unwrap();
    // Plant a nonzero prior average to show it is discarded.
    opt.vars[0].x = Tensor::new(&[123.0f32, -55.5], &Device::Cpu).unwrap();
    let g = Tensor::new(&[4.0f32, 8.0], &Device::Cpu).unwrap();
    opt.step_indexed(&vec![Some(g)]).unwrap();
    let x = opt.vars[0].x.to_vec1::<f32>().unwrap();
    let z = opt.vars[0].z.to_vec1::<f32>().unwrap();
    assert_eq!(x, z);
    // And z' is plain gradient descent from z = 0: -0.001 * g.
    assert!(close(z[0], -0.004) && close(z[1], -0.008));
}

#[test]
fn working_point_with_beta_zero_is_the_descent_iterate() {
    // y' = (1 - beta) * z + beta * x over the pre-step state: beta = 0 gives y' = z.
    let v = float_var(&[9.0, 9.0]);
    let params = ParamsSGDSchedulerFree {
        lr: Ratio { num: 1, den: 1000 },
        beta: Ratio { num: 0, den: 1 },
    };
    let mut opt = SGDSchedulerFree::new(vec![v.clone()], params).unwrap();
    opt.vars[0].z = Tensor::new(&[5.0f32, -3.0], &Device::Cpu).unwrap();
    opt.vars[0].x = Tensor::new(&[100.0f32, 100.0], &Device::Cpu).unwrap();
    let g = Tensor::new(&[1.0f32, 1.0], &Device::Cpu).unwrap();
    opt.step_indexed(&vec![Some(g)]).unwrap();
    assert_eq!(v.to_vec1::<f32>().unwrap(), vec![5.0, -3.0]);
}

#[test]
fn working_point_with_beta_one_is_the_running_average() {
    // beta = 1 gives y' = x, the pre-step running average.
    let v = float_var(&[9.0, 9.0]);
    let params = ParamsSGDSchedulerFree {
        lr: Ratio { num: 1, den: 1000 },
        beta: Ratio { num: 1, den: 1 },
    };
    let mut opt = SGDSchedulerFree::new(vec![v.clone()], params).unwrap();
    opt.vars[0].z = Tensor::new(&[5.0f32, -3.0], &Device::Cpu).unwrap();
    opt.vars[0].x = Tensor::new(&[-7.0f32, 2.5], &Device::Cpu).unwrap();
    let g = Tensor::new(&[1.0f32, 1.0], &Device::Cpu).unwrap();
    opt.step_indexed(&vec![Some(g)]).unwrap();
    assert_eq!(v.to_vec1::<f32>().unwrap(), vec![-7.0, 2.5]);
}

#[test]
fn second_step_averages_with_weight_one_half() {
    // At step_t = 2, c = 1/2: x' = 0.5 * x + 0.5 * z'.
    let v = float_var(&[0.0]);
    let mut opt = SGDSchedulerFree::new(vec![v], ParamsSGDSchedulerFree::default()).unwrap();
    let g = Tensor::new(&[1.0f32], &Device::Cpu).unwrap();
    opt.step_indexed(&vec![Some(g.clone())]).unwrap();
    // After one step: z = -0.001, x = z.
    opt.step_indexed(&vec![Some(g)]).unwrap();
    let x = opt.vars[0].x.to_vec1::<f32>().unwrap();
    let z = opt.vars[0].z.to_vec1::<f32>().unwrap();
    assert!(close(z[0], -0.002));
    assert!(close(x[0], 0.5 * -0.001 + 0.5 * -0.002));
    assert_eq!(opt.step_t, 2);
}

#[test]
fn parameter_absent_from_the_lookup_keeps_value_and_state() {
    let used = float_var(&[1.0]);
    let unused = float_var(&[2.25]);
    let mut opt = SGDSchedulerFree::new(
        vec![used.clone(), unused.clone()],
        ParamsSGDSchedulerFree::default(),
    )
    .unwrap();
    opt.vars[1].x = Tensor::new(&[0.5f32], &Device::Cpu).unwrap();
    opt.vars[1].z = Tensor::new(&[-0.5f32], &Device::Cpu).unwrap();
    let loss = used.as_tensor().sum_all().unwrap();
    opt.backward_step(&loss).unwrap();
    assert_eq!(unused.to_vec1::<f32>().unwrap(), vec![2.25]);
    assert_eq!(opt.vars[1].x.to_vec1::<f32>().unwrap(), vec![0.5]);
    assert_eq!(opt.vars[1].z.to_vec1::<f32>().unwrap(), vec![-0.5]);
}

#[test]
fn set_learning_rate_is_returned_and_used_from_the_next_step() {
    let v = float_var(&[0.0]);
    let mut opt = SGDSchedulerFree::new(vec![v], ParamsSGDSchedulerFree::default()).unwrap();
    let g = Tensor::new(&[1.0f32], &Device::Cpu).unwrap();
    // First step under the prior rate: z = -0.001.
    opt.step_indexed(&vec![Some(g.clone())]).unwrap();
    assert!(close(opt.vars[0].z.to_vec1::<f32>().unwrap()[0], -0.001));
    opt.set_learning_rate(Ratio { num: 1, den: 10 });
    assert_eq!(opt.learning_rate(), Ratio { num: 1, den: 10 });
    // Second step under the new rate: z = -0.001 - 0.1.
    opt.step_indexed(&vec![Some(g)]).unwrap();
    assert!(close(opt.vars[0].z.to_vec1::<f32>().unwrap()[0], -0.101));
}

#[test]
fn new_lr_keeps_the_default_interpolation_weight() {
    let v = float_var(&[1.0]);
    let opt = SGDSchedulerFree::new_lr(vec![v], Ratio { num: 1, den: 50 }).unwrap();
    assert_eq!(opt.params().lr, Ratio { num: 1, den: 50 });
    assert_eq!(opt.params().beta, Ratio { num: 9, den: 10 });
}
