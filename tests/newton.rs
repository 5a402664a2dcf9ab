use ctm_demo::{NewtonAction, NewtonIteration, StepRecord, Trajectory, N_ITERATIONS_MAX};

#[test]
fn newton_accepts_small_residual_at_once() {
    let mut n = NewtonIteration::new();
    assert_eq!(n.next(true), NewtonAction::Accept);
    assert_eq!(n.corrections(), 0);
}

#[test]
fn newton_corrects_until_small() {
    let mut n = NewtonIteration::new();
    for _ in 0..3 {
        assert_eq!(n.next(false), NewtonAction::Correct);
    }
    assert_eq!(n.next(true), NewtonAction::Accept);
    assert_eq!(n.corrections(), 3);
}

#[test]
fn newton_gives_up_after_budget() {
    let mut n = NewtonIteration::new();
    for k in 0..N_ITERATIONS_MAX {
        assert_eq!(n.corrections(), k);
        assert_eq!(n.next(false), NewtonAction::Correct);
    }
    assert_eq!(N_ITERATIONS_MAX, 20);
    assert_eq!(n.next(true), NewtonAction::GiveUp);
    assert_eq!(n.next(false), NewtonAction::GiveUp);
    assert_eq!(n.corrections(), 20);
}

/// Backward Euler on dy/dx = -λ y, driven by the library's iteration control
/// and recorded in its trajectory.
fn linear_decay(lambda: f64, ddx: f64, nd: usize, tolerance: f64) -> Option<(Vec<f64>, Vec<f64>, Vec<f64>)> {
    let f = |y: f64| -lambda * y;
    let (x_ini, y_ini) = (0.0, 1.0);
    let mut t = Trajectory::start(nd, StepRecord::initial(x_ini, y_ini, f(y_ini)));
    let (mut x, mut y) = (x_ini, y_ini);
    while !t.is_complete() {
        let y0 = y;
        x += ddx;
        y = y0 + ddx * f(y0);
        let mut n = NewtonIteration::new();
        loop {
            let r = y - y0 - ddx * f(y);
            match n.next(r.abs() < tolerance) {
                NewtonAction::Accept => break,
                NewtonAction::GiveUp => return None,
                NewtonAction::Correct => y += -r / (1.0 + ddx * lambda),
            }
        }
        let ctm = f(y) / (1.0 + ddx * lambda);
        t.record(StepRecord { x, y_be: y, y_ode: y, com: f(y), ctm, num_ctm: ctm, num_ctm_ode: ctm });
    }
    let (xx, yy, _, _, ctm, _, _) = t.into_streams();
    Some((xx, yy, ctm))
}

#[test]
fn dahlquist_backward_euler_trajectory() {
    let (xx, yy, ctm) = linear_decay(5.0, 0.1, 5, 1e-8).unwrap();
    assert_eq!(xx.len(), 6);
    let y_ref = [1.0, 0.6667, 0.4444, 0.2963, 0.1975, 0.1317];
    let ctm_ref = [-5.0, -2.2222, -1.4815, -0.9877, -0.6584, -0.4390];
    for k in 0..6 {
        assert!((yy[k] - y_ref[k]).abs() < 1e-4, "y[{}] = {}", k, yy[k]);
        assert!((ctm[k] - ctm_ref[k]).abs() < 1e-4, "ctm[{}] = {}", k, ctm[k]);
        assert!((yy[k] - (2.0f64 / 3.0).powi(k as i32)).abs() < 1e-10);
    }
}

#[test]
fn impossible_tolerance_gives_up() {
    assert!(linear_decay(5.0, 0.1, 2, -1.0).is_none());
}
