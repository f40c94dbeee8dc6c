//! Control of the escape-time loop for one sample.
//!
//! The numeric orbit (the complex value, its derivative and the smooth
//! count) is computed by the caller. This module holds the integer state
//! that decides when the loop goes on, when the periodicity checkpoint is
//! refreshed, when an orbit is declared interior, and how a finished sample
//! is classified.
use vstd::prelude::*;

verus! {

/// The integer state of the escape-time loop: the iteration count and the
/// periodicity counter.
#[derive(Clone, Copy, Debug, PartialEq, Eq, Structural)]
pub struct EscapeState {
    pub iterations: u64,
    pub period: u64,
}

/// The periodicity counter after one iteration: it counts up, and wraps to 0
/// once it has reached the cycle length.
pub open spec fn next_period(period: nat, cycles: nat) -> nat {
    if period >= cycles {
        0
    } else {
        period + 1
    }
}

/// The state after one iteration of the loop. An orbit that came back to
/// within tolerance of the checkpoint (`near`) is declared interior: its
/// iteration count jumps to the limit.
pub open spec fn advanced(s: EscapeState, near: bool, limit: u64, cycles: u64) -> EscapeState {
    EscapeState {
        iterations: if near {
            limit
        } else {
            (s.iterations + 1) as u64
        },
        period: next_period(s.period as nat, cycles as nat) as u64,
    }
}

impl EscapeState {
    /// The state before the first iteration: no iterations, counter at 1.
    pub open spec fn initial() -> EscapeState {
        EscapeState { iterations: 0, period: 1 }
    }

    pub fn new() -> (r: EscapeState)
        ensures
            r == EscapeState::initial(),
    {
        EscapeState { iterations: 0, period: 1 }
    }

    /// The loop goes on while the bailout predicate holds and the iteration
    /// limit has not been reached.
    pub fn should_iterate(&self, bailout_holds: bool, limit: u64) -> (r: bool)
        ensures
            r == (bailout_holds && self.iterations < limit),
    {
        bailout_holds && self.iterations < limit
    }

    /// Takes one iteration into account. `near` tells whether the new orbit
    /// value lies within tolerance of the checkpoint on both axes. Returns
    /// whether the checkpoint is to be moved to the new orbit value.
    pub fn advance(&mut self, near: bool, limit: u64, cycles: u64) -> (refresh: bool)
        requires
            old(self).iterations < limit,
        ensures
            *final(self) == advanced(*old(self), near, limit, cycles),
            refresh == (old(self).period >= cycles),
    {
        if near {
            self.iterations = limit;
        } else {
            self.iterations = self.iterations + 1;
        }
        if self.period >= cycles {
            self.period = 0;
            true
        } else {
            self.period = self.period + 1;
            false
        }
    }

    /// A finished sample escaped when its iteration count stayed below the
    /// limit; otherwise it is interior and takes the set color.
    pub fn escaped(&self, limit: u64) -> (r: bool)
        ensures
            r == (self.iterations < limit),
    {
        self.iterations < limit
    }
}

/// The loop state together with the orbit index held as checkpoint, the
/// number of iterations actually performed, and whether the loop still runs.
pub ghost struct OrbitRun {
    pub state: EscapeState,
    pub checkpoint: nat,
    pub steps: nat,
    pub running: bool,
}

/// The escape-time loop run on the orbit `orbit` (`orbit(0)` is the seed),
/// after `k` evaluations of its condition. A point counts as near the
/// checkpoint when it is equal to it.
pub open spec fn run<T>(
    orbit: spec_fn(nat) -> T,
    bailout: spec_fn(T) -> bool,
    limit: u64,
    cycles: u64,
    k: nat,
) -> OrbitRun
    decreases k,
{
    if k == 0 {
        OrbitRun { state: EscapeState::initial(), checkpoint: 0, steps: 0, running: true }
    } else {
        let r = run(orbit, bailout, limit, cycles, (k - 1) as nat);
        if !r.running {
            r
        } else if !(bailout(orbit(r.steps)) && r.state.iterations < limit) {
            OrbitRun { running: false, ..r }
        } else {
            let s = r.steps + 1;
            OrbitRun {
                state: advanced(r.state, orbit(s) == orbit(r.checkpoint), limit, cycles),
                checkpoint: if r.state.period >= cycles {
                    s
                } else {
                    r.checkpoint
                },
                steps: s,
                running: true,
            }
        }
    }
}

/// The periodicity counter and the checkpoint index after `n` iterations,
/// as long as no interior verdict has stopped the loop. They depend on the
/// iteration number alone.
pub open spec fn schedule(cycles: nat, n: nat) -> (nat, nat)
    decreases n,
{
    if n == 0 {
        (1, 0)
    } else {
        let (p, c) = schedule(cycles, (n - 1) as nat);
        (next_period(p, cycles), if p >= cycles {
            n
        } else {
            c
        })
    }
}

/// The `k`-th iteration (counting from 1) brings the orbit back onto the
/// checkpoint that the schedule holds at that point.
pub open spec fn returns_at<T>(orbit: spec_fn(nat) -> T, cycles: nat, k: nat) -> bool {
    k >= 1 && orbit(k) == orbit(schedule(cycles, (k - 1) as nat).1)
}

proof fn lemma_schedule_bounded(cycles: nat, n: nat)
    requires
        cycles >= 1,
    ensures
        schedule(cycles, n).0 <= cycles,
    decreases n,
{
    if n > 0 {
        lemma_schedule_bounded(cycles, (n - 1) as nat);
    }
}

proof fn lemma_schedule_counts(cycles: nat, n: nat, t: nat)
    requires
        schedule(cycles, n).0 + t <= cycles,
    ensures
        schedule(cycles, n + t) == (schedule(cycles, n).0 + t, schedule(cycles, n).1),
    decreases t,
{
    if t > 0 {
        lemma_schedule_counts(cycles, n, (t - 1) as nat);
        assert(n + t - 1 == n + (t - 1) as nat);
    }
}

/// An orbit periodic with period `p`, from index `start` on, comes back onto
/// a checkpoint within `start + 2 * cycles` iterations.
proof fn lemma_periodic_orbit_returns<T>(orbit: spec_fn(nat) -> T, cycles: nat, start: nat, p: nat)
    requires
        1 <= p <= cycles,
        forall|n: nat| n >= start ==> #[trigger] orbit(n + p) == orbit(n),
    ensures
        exists|k: nat| k <= start + 2 * cycles && #[trigger] returns_at(orbit, cycles, k),
{
    lemma_schedule_bounded(cycles, start);
    let q = schedule(cycles, start).0;
    let anchor: nat = if start == 0 || q == 0 {
        start
    } else {
        lemma_schedule_counts(cycles, start, (cycles - q) as nat);
        (start + cycles - q + 1) as nat
    };
    assert(schedule(cycles, anchor).1 == anchor && schedule(cycles, anchor).0 <= 1);
    lemma_schedule_counts(cycles, anchor, (p - 1) as nat);
    let k = anchor + p;
    assert(orbit(anchor + p) == orbit(anchor));
    assert(returns_at(orbit, cycles, k));
}

proof fn lemma_run_follows_schedule<T>(
    orbit: spec_fn(nat) -> T,
    bailout: spec_fn(T) -> bool,
    limit: u64,
    cycles: u64,
    k: nat,
)
    requires
        cycles >= 1,
        k <= limit,
        forall|n: nat| #[trigger] bailout(orbit(n)),
    ensures
        ({
            let r = run(orbit, bailout, limit, cycles, k);
            ||| (r.running && r.steps == k && r.state.iterations == k && r.state.period
                == schedule(cycles as nat, k).0 && r.checkpoint == schedule(cycles as nat, k).1
                && forall|j: nat| 1 <= j <= k ==> !#[trigger] returns_at(orbit, cycles as nat, j))
            ||| (r.state.iterations == limit && 1 <= r.steps <= k && returns_at(
                orbit,
                cycles as nat,
                r.steps,
            ) && forall|j: nat| 1 <= j < r.steps ==> !#[trigger] returns_at(orbit, cycles as nat, j))
        }),
    decreases k,
{
    if k > 0 {
        let km = (k - 1) as nat;
        lemma_run_follows_schedule(orbit, bailout, limit, cycles, km);
        lemma_schedule_bounded(cycles as nat, km);
        let r = run(orbit, bailout, limit, cycles, km);
        if r.running && r.steps == km && r.state.iterations == km && r.state.period == schedule(
            cycles as nat,
            km,
        ).0 && r.checkpoint == schedule(cycles as nat, km).1 && forall|j: nat|
            1 <= j <= km ==> !#[trigger] returns_at(orbit, cycles as nat, j) {
            assert(bailout(orbit(r.steps)));
            if returns_at(orbit, cycles as nat, k) {
            } else {
                assert forall|j: nat| 1 <= j <= k implies !#[trigger] returns_at(
                    orbit,
                    cycles as nat,
                    j,
                ) by {
                    if j < k {
                        assert(1 <= j <= km);
                    }
                }
            }
        }
    }
}

/// Periodicity detection: when the bailout predicate holds all along an
/// orbit that is exactly periodic from index `start` on, with a period `p`
/// no longer than the cycle length, and the iteration limit exceeds
/// `start + 2 * cycles`, the loop stops after at most `start + 2 * cycles`
/// iterations, before the limit, with an interior verdict.
pub proof fn lemma_periodic_orbit_is_interior<T>(
    orbit: spec_fn(nat) -> T,
    bailout: spec_fn(T) -> bool,
    limit: u64,
    cycles: u64,
    start: nat,
    p: nat,
)
    requires
        1 <= p <= cycles,
        forall|n: nat| n >= start ==> #[trigger] orbit(n + p) == orbit(n),
        forall|n: nat| #[trigger] bailout(orbit(n)),
        start + 2 * cycles < limit,
    ensures
        exists|k: nat|
            {
                let r = #[trigger] run(orbit, bailout, limit, cycles, k);
                &&& !r.running
                &&& r.steps <= start + 2 * cycles
                &&& r.state.iterations == limit
            },
{
    lemma_periodic_orbit_returns(orbit, cycles as nat, start, p);
    let d = choose|d: nat| d <= start + 2 * cycles && #[trigger] returns_at(orbit, cycles as nat, d);
    lemma_run_follows_schedule(orbit, bailout, limit, cycles, d);
    let r = run(orbit, bailout, limit, cycles, d);
    assert(r.state.iterations == limit);
    let r2 = run(orbit, bailout, limit, cycles, d + 1);
    assert(!r2.running);
}

/// An orbit that stays at its seed, with the bailout predicate holding there,
/// never escapes: whatever the iteration limit and cycle length, the loop
/// stops with an interior verdict after at most one iteration.
pub proof fn lemma_fixed_point_is_interior<T>(
    orbit: spec_fn(nat) -> T,
    bailout: spec_fn(T) -> bool,
    limit: u64,
    cycles: u64,
)
    requires
        forall|n: nat| #[trigger] orbit(n) == orbit(0),
        bailout(orbit(0)),
    ensures
        exists|k: nat|
            {
                let r = #[trigger] run(orbit, bailout, limit, cycles, k);
                &&& !r.running
                &&& r.steps <= 1
                &&& r.state.iterations == limit
            },
{
    let r0 = run(orbit, bailout, limit, cycles, 0);
    assert(bailout(orbit(r0.steps)));
    if limit == 0 {
        assert(!run(orbit, bailout, limit, cycles, 1).running);
    } else {
        assert(orbit(1) == orbit(0));
        let r1 = run(orbit, bailout, limit, cycles, 1);
        assert(r1.state.iterations == limit);
        assert(!run(orbit, bailout, limit, cycles, 2).running);
    }
}

} // verus!
