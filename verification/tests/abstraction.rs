use candle_core::Device;
use candle_core::Tensor;
use candle_core::Var;
use candle_free_scheduler::momentum::ParamsSGDMomentum;
use candle_free_scheduler::momentum::SGDMomentum;
use candle_free_scheduler::optim_error::OptimError;
use candle_free_scheduler::optimizer::Optimizer;
use candle_free_scheduler::ratio::Ratio;
use candle_free_scheduler::schedule_free::ParamsSGDSchedulerFree;
use candle_free_scheduler::schedule_free::SGDSchedulerFree;

// A driver that knows nothing about the update rule: it only relies on the
// Optimizer capability contract.
fn drive<O: Optimizer>(opt: &mut O, v: &Var, target: f32, steps: u32) -> Result<f32, OptimError> {
    let mut last = f32::MAX;
    for _ in 0..steps {
        let t = Tensor::new(target, &Device::Cpu).unwrap();
        let diff = v.as_tensor().sub(&t.broadcast_as(v.shape()).unwrap()).unwrap();
        let loss = diff.sqr().unwrap().sum_all().unwrap();
        opt.backward_step(&loss)?;
        last = loss.to_vec0::<f32>().unwrap();
    }
    Ok(last)
}

#[test]
fn one_driver_runs_both_update_rules() {
    let lr = Ratio { num: 1, den: 100 };

    let v1 = Var::from_tensor(&Tensor::new(&[0.0f32], &Device::Cpu).unwrap()).unwrap();
    let mut momentum = SGDMomentum::new(
        vec![v1.clone()],
        ParamsSGDMomentum { lr, beta: Ratio { num: 1, den: 10 } },
    )
    .unwrap();
    assert_eq!(Optimizer::learning_rate(&momentum), lr);
    let loss1 = drive(&mut momentum, &v1, 3.0, 200).unwrap();
    assert!(loss1 < 0.01, "momentum SGD did not descend: {loss1}");

    let v2 = Var::from_tensor(&Tensor::new(&[0.0f32], &Device::Cpu).unwrap()).unwrap();
    let mut schedule_free = SGDSchedulerFree::new(
        vec![v2.clone()],
        ParamsSGDSchedulerFree { lr, beta: Ratio { num: 9, den: 10 } },
    )
    .unwrap();
    Optimizer::set_learning_rate(&mut schedule_free, Ratio { num: 1, den: 20 });
    assert_eq!(Optimizer::learning_rate(&schedule_free), Ratio { num: 1, den: 20 });
    let loss2 = drive(&mut schedule_free, &v2, 3.0, 400).unwrap();
    assert!(loss2 < 0.05, "Schedule-Free SGD did not descend: {loss2}");
}
