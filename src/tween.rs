use vstd::prelude::*;

verus! {

/// Fixed-point scale: a parameter value of `ONE` stands for 1.0.
pub const ONE: i64 = 1_000_000;

/// Largest magnitude a parameter value may take.
pub const PARAM_LIMIT: i64 = 1_000_000_000;

/// Shape of the curve a tween follows from its start to its end.
#[derive(Clone, Copy, Debug, PartialEq, Eq, Structural)]
pub enum Easing {
    Linear,
    /// Slow start: progress is `t^k`.
    PowIn(u32),
    /// Slow finish: progress is `1 - (1 - t)^k`.
    PowOut(u32),
    /// Slow start and finish.
    PowInOut(u32),
}

/// `t^k` for a fixed-point `t` in `[0, ONE]`.
pub open spec fn pow_in(t: int, k: nat) -> int
    decreases k,
{
    if k == 0 {
        ONE as int
    } else {
        pow_in(t, (k - 1) as nat) * t / (ONE as int)
    }
}

/// Eased progress for linear progress `t` in `[0, ONE]`.
pub open spec fn ease_spec(e: Easing, t: int) -> int {
    match e {
        Easing::Linear => t,
        Easing::PowIn(k) => pow_in(t, k as nat),
        Easing::PowOut(k) => ONE - pow_in(ONE - t, k as nat),
        Easing::PowInOut(k) => if 2 * t < ONE {
            pow_in(2 * t, k as nat) / 2
        } else {
            ONE - pow_in(2 * (ONE - t), k as nat) / 2
        },
    }
}

proof fn lemma_scale_bounded(a: int, t: int)
    requires
        0 <= a <= ONE,
        0 <= t <= ONE,
    ensures
        0 <= a * t / (ONE as int) <= ONE,
{
    assert(0 <= a * t <= ONE * ONE) by (nonlinear_arith)
        requires
            0 <= a <= ONE,
            0 <= t <= ONE,
    ;
    assert(0 <= a * t / (ONE as int) <= ONE) by (nonlinear_arith)
        requires
            0 <= a * t <= ONE * ONE,
    ;
}

proof fn lemma_pow_in_bounded(t: int, k: nat)
    requires
        0 <= t <= ONE,
    ensures
        0 <= pow_in(t, k) <= ONE,
    decreases k,
{
    if k > 0 {
        lemma_pow_in_bounded(t, (k - 1) as nat);
        lemma_scale_bounded(pow_in(t, (k - 1) as nat), t);
    }
}

pub proof fn lemma_ease_bounded(e: Easing, t: int)
    requires
        0 <= t <= ONE,
    ensures
        0 <= ease_spec(e, t) <= ONE,
{
    match e {
        Easing::Linear => {},
        Easing::PowIn(k) => lemma_pow_in_bounded(t, k as nat),
        Easing::PowOut(k) => lemma_pow_in_bounded(ONE - t, k as nat),
        Easing::PowInOut(k) => {
            if 2 * t < ONE {
                lemma_pow_in_bounded(2 * t, k as nat);
            } else {
                lemma_pow_in_bounded(2 * (ONE - t), k as nat);
            }
        },
    }
}

fn pow_in_exec(t: u64, k: u32) -> (r: u64)
    requires
        t <= ONE,
    ensures
        r == pow_in(t as int, k as nat),
        r <= ONE,
{
    let mut acc: u64 = ONE as u64;
    let mut i: u32 = 0;
    while i < k
        invariant
            i <= k,
            t <= ONE,
            acc == pow_in(t as int, i as nat),
            acc <= ONE,
        decreases k - i,
    {
        proof {
            lemma_scale_bounded(acc as int, t as int);
            assert(acc * t <= ONE * ONE) by (nonlinear_arith)
                requires
                    acc <= ONE,
                    t <= ONE,
            ;
        }
        acc = acc * t / (ONE as u64);
        i = i + 1;
    }
    acc
}

impl Easing {
    /// Eased progress for linear progress `t`, both fixed-point in `[0, ONE]`.
    pub fn ease(&self, t: u64) -> (r: u64)
        requires
            t <= ONE,
        ensures
            r == ease_spec(*self, t as int),
            r <= ONE,
    {
        proof {
            lemma_ease_bounded(*self, t as int);
        }
        match *self {
            Easing::Linear => t,
            Easing::PowIn(k) => pow_in_exec(t, k),
            Easing::PowOut(k) => (ONE as u64) - pow_in_exec((ONE as u64) - t, k),
            Easing::PowInOut(k) => {
                if 2 * t < ONE as u64 {
                    pow_in_exec(2 * t, k) / 2
                } else {
                    (ONE as u64) - pow_in_exec(2 * ((ONE as u64) - t), k) / 2
                }
            },
        }
    }
}

/// How a change of a parameter is spread over time: `duration` is counted in
/// frames of the output stream.
#[derive(Clone, Copy, Debug, PartialEq, Eq, Structural)]
pub struct Tween {
    pub duration: u64,
    pub easing: Easing,
}

impl Tween {
    pub fn linear(duration: u64) -> (r: Tween)
        ensures
            r.duration == duration,
            r.easing == Easing::Linear,
    {
        Tween { duration, easing: Easing::Linear }
    }
}

} // verus!
