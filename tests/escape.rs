use fracgen::EscapeState;

struct Outcome {
    state: EscapeState,
    steps: u64,
}

/// Runs the Mandelbrot orbit of `c` from 0 under the library's loop control.
fn run_orbit(c: (f64, f64), limit: u64, cycles: u64, bail: f64, tol: f64) -> Outcome {
    let mut z = (0.0f64, 0.0f64);
    let mut old = z;
    let mut st = EscapeState::new();
    let mut steps = 0u64;
    while st.should_iterate(z.0 * z.0 + z.1 * z.1 < bail, limit) {
        z = (z.0 * z.0 - z.1 * z.1 + c.0, 2.0 * z.0 * z.1 + c.1);
        steps += 1;
        let near = (z.0 - old.0).abs() < tol && (z.1 - old.1).abs() < tol;
        if st.advance(near, limit, cycles) {
            old = z;
        }
    }
    Outcome { state: st, steps }
}

#[test]
fn origin_never_escapes() {
    for limit in [0u64, 1, 2, 10, 1024, 100000] {
        let out = run_orbit((0.0, 0.0), limit, 20, 4.0, 1e-3);
        assert!(!out.state.escaped(limit));
        assert_eq!(out.state.iterations, limit);
        assert!(out.steps <= 1);
    }
}

#[test]
fn two_escapes_after_one_iteration() {
    for bail in [1.0f64, 2.0, 4.0] {
        let out = run_orbit((2.0, 0.0), 1024, 20, bail, 1e-3);
        assert!(out.state.escaped(1024));
        assert_eq!(out.state.iterations, 1);
    }
}

#[test]
fn period_two_orbit_detected_early() {
    let out = run_orbit((-1.0, 0.0), 1024, 20, 64.0, 1e-3);
    assert!(!out.state.escaped(1024));
    assert_eq!(out.state.iterations, 1024);
    assert_eq!(out.steps, 2);
}

#[test]
fn eventually_fixed_orbit_detected_after_refresh() {
    // 0, -2, 2, 2, ...: the checkpoint stays at 0 until the refresh at
    // iteration 20, and the next iteration returns onto it.
    let out = run_orbit((-2.0, 0.0), 1024, 20, 64.0, 1e-3);
    assert!(!out.state.escaped(1024));
    assert_eq!(out.steps, 21);
    assert!(out.steps <= 2 + 2 * 20);
}

#[test]
fn bounded_orbit_without_return_reaches_limit() {
    let limit = 50u64;
    let mut st = EscapeState::new();
    let mut steps = 0u64;
    while st.should_iterate(true, limit) {
        st.advance(false, limit, 5);
        steps += 1;
    }
    assert_eq!(steps, limit);
    assert!(!st.escaped(limit));
}

#[test]
fn checkpoint_refresh_schedule() {
    let mut st = EscapeState::new();
    assert_eq!(st, EscapeState { iterations: 0, period: 1 });
    let mut refreshes = Vec::new();
    for k in 1..=12u64 {
        if st.advance(false, 1000, 3) {
            refreshes.push(k);
        }
    }
    assert_eq!(refreshes, vec![3, 7, 11]);
    assert_eq!(st.iterations, 12);
    assert_eq!(st.period, 1);
}

#[test]
fn near_forces_limit() {
    let mut st = EscapeState::new();
    st.advance(false, 9, 4);
    assert_eq!(st.iterations, 1);
    st.advance(true, 9, 4);
    assert_eq!(st.iterations, 9);
    assert!(!st.should_iterate(true, 9));
    assert!(!st.escaped(9));
}

#[test]
fn zero_cycle_length_refreshes_every_iteration() {
    let mut st = EscapeState::new();
    assert!(st.advance(false, 10, 0));
    assert_eq!(st.period, 0);
    assert!(st.advance(false, 10, 0));
}
