use ctm_demo::{StepRecord, Trajectory};

fn row(k: u32) -> StepRecord<u32> {
    StepRecord { x: k, y_be: 10 + k, y_ode: 20 + k, com: 30 + k, ctm: 40 + k, num_ctm: 50 + k, num_ctm_ode: 60 + k }
}

#[test]
fn initial_record_repeats_continuous_modulus() {
    let r = StepRecord::initial(0.5, 2.0, -3.0);
    assert_eq!(r, StepRecord { x: 0.5, y_be: 2.0, y_ode: 2.0, com: -3.0, ctm: -3.0, num_ctm: -3.0, num_ctm_ode: -3.0 });
}

#[test]
fn zero_steps_is_complete_at_start() {
    let t = Trajectory::start(0, row(0));
    assert!(t.is_complete());
    assert_eq!(t.len(), 1);
    assert_eq!(t.steps_done(), 0);
    let (xx, yy_be, yy_ode, com, ctm, num_ctm, num_ctm_ode) = t.into_streams();
    assert_eq!((xx, yy_be, yy_ode), (vec![0], vec![10], vec![20]));
    assert_eq!((com, ctm, num_ctm, num_ctm_ode), (vec![30], vec![40], vec![50], vec![60]));
}

#[test]
fn trajectory_holds_one_record_per_step() {
    let mut t = Trajectory::start(3, row(0));
    assert_eq!(t.n_steps(), 3);
    let mut k = 1;
    while !t.is_complete() {
        t.record(row(k));
        k += 1;
    }
    assert_eq!(t.len(), 4);
    assert_eq!(t.steps_done(), 3);
    assert_eq!(t.row(2), row(2));
    let (xx, yy_be, yy_ode, com, ctm, num_ctm, num_ctm_ode) = t.into_streams();
    assert_eq!(xx, vec![0, 1, 2, 3]);
    assert_eq!(yy_be, vec![10, 11, 12, 13]);
    assert_eq!(yy_ode, vec![20, 21, 22, 23]);
    assert_eq!(com, vec![30, 31, 32, 33]);
    assert_eq!(ctm, vec![40, 41, 42, 43]);
    assert_eq!(num_ctm, vec![50, 51, 52, 53]);
    assert_eq!(num_ctm_ode, vec![60, 61, 62, 63]);
}
