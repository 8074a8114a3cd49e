use vstd::prelude::*;
use crate::tween::{Easing, Tween, ONE, PARAM_LIMIT, ease_spec, lemma_ease_bounded};

verus! {

/// A change in progress: from `start` to `end` over `duration` frames, of which
/// `elapsed` have passed.
#[derive(Clone, Copy, Debug, PartialEq, Eq, Structural)]
pub struct ActiveTween {
    pub start: i64,
    pub end: i64,
    pub duration: u64,
    pub elapsed: u64,
    pub easing: Easing,
}

/// A scalar that moves toward its target, possibly along a tween.
#[derive(Clone, Copy, Debug, PartialEq, Eq, Structural)]
pub struct Parameter {
    pub value: i64,
    pub tween: Option<ActiveTween>,
}

pub open spec fn in_limits(v: int) -> bool {
    -PARAM_LIMIT <= v <= PARAM_LIMIT
}

/// Point between `start` and `end` at fixed-point fraction `e` of the way.
pub open spec fn interp(start: int, end: int, e: int) -> int {
    if end >= start {
        start + (end - start) * e / (ONE as int)
    } else {
        start - (start - end) * e / (ONE as int)
    }
}

pub open spec fn between(v: int, a: int, b: int) -> bool {
    (a <= v <= b) || (b <= v <= a)
}

proof fn lemma_interp_between(start: int, end: int, e: int)
    requires
        0 <= e <= ONE,
    ensures
        between(interp(start, end, e), start, end),
{
    let d = if end >= start { end - start } else { start - end };
    assert(0 <= d * e / (ONE as int) <= d) by (nonlinear_arith)
        requires
            0 <= d,
            0 <= e <= ONE,
    ;
}

/// `interp` on machine integers.
pub fn lerp(start: i64, end: i64, e: u64) -> (r: i64)
    requires
        in_limits(start as int),
        in_limits(end as int),
        e <= ONE,
    ensures
        r == interp(start as int, end as int, e as int),
        between(r as int, start as int, end as int),
{
    proof {
        lemma_interp_between(start as int, end as int, e as int);
    }
    if end >= start {
        let d = (end - start) as u64;
        assert((d as int) * (e as int) <= (d as int) * (ONE as int)) by (nonlinear_arith)
            requires
                e <= ONE,
        ;
        start + ((d as u128) * (e as u128) / (ONE as u128)) as i64
    } else {
        let d = (start - end) as u64;
        assert((d as int) * (e as int) <= (d as int) * (ONE as int)) by (nonlinear_arith)
            requires
                e <= ONE,
        ;
        start - ((d as u128) * (e as u128) / (ONE as u128)) as i64
    }
}

impl ActiveTween {
    pub open spec fn wf(&self) -> bool {
        &&& in_limits(self.start as int)
        &&& in_limits(self.end as int)
        &&& self.elapsed <= self.duration
    }
}

impl Parameter {
    pub open spec fn wf(&self) -> bool {
        &&& in_limits(self.value as int)
        &&& match self.tween {
            Some(tw) => tw.wf() && between(self.value as int, tw.start as int, tw.end as int),
            None => true,
        }
    }

    /// The parameter after `dt` more frames.
    pub open spec fn step_spec(self, dt: u64) -> Parameter {
        match self.tween {
            None => self,
            Some(tw) => if dt >= tw.duration - tw.elapsed {
                Parameter { value: tw.end, tween: None }
            } else {
                let elapsed = (tw.elapsed + dt) as u64;
                let t = (elapsed as int) * (ONE as int) / (tw.duration as int);
                Parameter {
                    value: interp(tw.start as int, tw.end as int, ease_spec(tw.easing, t)) as i64,
                    tween: Some(ActiveTween { elapsed, ..tw }),
                }
            },
        }
    }

    /// The parameter after a new target was set.
    pub open spec fn set_spec(self, target: i64, tween: Option<Tween>) -> Parameter {
        match tween {
            None => Parameter { value: target, tween: None },
            Some(tw) => Parameter {
                value: self.value,
                tween: Some(ActiveTween {
                    start: self.value,
                    end: target,
                    duration: tw.duration,
                    elapsed: 0,
                    easing: tw.easing,
                }),
            },
        }
    }

    pub fn new(value: i64) -> (r: Parameter)
        requires
            in_limits(value as int),
        ensures
            r.wf(),
            r.value == value,
            r.tween is None,
    {
        Parameter { value, tween: None }
    }

    /// Retargets the parameter: at once without a tween, else along the tween
    /// from the current value.
    pub fn set(&mut self, target: i64, tween: Option<Tween>)
        requires
            old(self).wf(),
            in_limits(target as int),
        ensures
            final(self).wf(),
            *final(self) == old(self).set_spec(target, tween),
    {
        match tween {
            None => {
                self.value = target;
                self.tween = None;
            },
            Some(tw) => {
                self.tween = Some(
                    ActiveTween {
                        start: self.value,
                        end: target,
                        duration: tw.duration,
                        elapsed: 0,
                        easing: tw.easing,
                    },
                );
            },
        }
    }

    /// Advances the parameter by `dt` frames.
    pub fn step(&mut self, dt: u64)
        requires
            old(self).wf(),
        ensures
            final(self).wf(),
            *final(self) == old(self).step_spec(dt),
    {
        match self.tween {
            None => {},
            Some(tw) => {
                if dt >= tw.duration - tw.elapsed {
                    self.value = tw.end;
                    self.tween = None;
                } else {
                    let elapsed = tw.elapsed + dt;
                    assert((elapsed as int) * (ONE as int) <= (tw.duration as int) * (ONE as int)) by (nonlinear_arith)
                        requires
                            elapsed <= tw.duration,
                    ;
                    let t128: u128 = (elapsed as u128) * (ONE as u128) / (tw.duration as u128);
                    assert(t128 <= ONE) by (nonlinear_arith)
                        requires
                            t128 == (elapsed as int) * (ONE as int) / (tw.duration as int),
                            elapsed < tw.duration,
                    ;
                    let t = t128 as u64;
                    let e = tw.easing.ease(t);
                    let v = lerp(tw.start, tw.end, e);
                    self.value = v;
                    self.tween = Some(ActiveTween { elapsed, ..tw });
                }
            },
        }
    }
}

/// The parameter after stepping by each of `dts` in turn.
pub open spec fn steps(p: Parameter, dts: Seq<u64>) -> Parameter
    decreases dts.len(),
{
    if dts.len() == 0 {
        p
    } else {
        steps(p.step_spec(dts[0]), dts.drop_first())
    }
}

/// Sum of the step lengths in `dts`.
pub open spec fn total(dts: Seq<u64>) -> int
    decreases dts.len(),
{
    if dts.len() == 0 {
        0
    } else {
        dts[0] + total(dts.drop_first())
    }
}

/// One step keeps a parameter well formed.
pub proof fn lemma_step_wf(p: Parameter, dt: u64)
    requires
        p.wf(),
    ensures
        p.step_spec(dt).wf(),
{
    if let Some(tw) = p.tween {
        if dt < tw.duration - tw.elapsed {
            let elapsed = (tw.elapsed + dt) as u64;
            let t = (elapsed as int) * (ONE as int) / (tw.duration as int);
            assert(0 <= t <= ONE) by (nonlinear_arith)
                requires
                    t == (elapsed as int) * (ONE as int) / (tw.duration as int),
                    elapsed < tw.duration,
            ;
            lemma_ease_bounded(tw.easing, t);
            lemma_interp_between(tw.start as int, tw.end as int, ease_spec(tw.easing, t));
        }
    }
}

proof fn lemma_steps_idle(p: Parameter, dts: Seq<u64>)
    requires
        p.tween is None,
    ensures
        steps(p, dts) == p,
    decreases dts.len(),
{
    if dts.len() > 0 {
        lemma_steps_idle(p.step_spec(dts[0]), dts.drop_first());
    }
}

/// A tween is complete once its remaining frames have been stepped through
/// (a tween of no frames completes on the first step):
/// the value is then the end value and no tween remains.
pub proof fn lemma_tween_completes(p: Parameter, dts: Seq<u64>)
    requires
        p.wf(),
        p.tween is Some,
        dts.len() > 0,
        total(dts) >= p.tween->0.duration - p.tween->0.elapsed,
    ensures
        steps(p, dts).value == p.tween->0.end,
        steps(p, dts).tween is None,
    decreases dts.len(),
{
    let tw = p.tween->0;
    if dts.len() > 0 {
        let q = p.step_spec(dts[0]);
        lemma_step_wf(p, dts[0]);
        if dts[0] >= tw.duration - tw.elapsed {
            lemma_steps_idle(q, dts.drop_first());
        } else {
            assert(total(dts) == dts[0] + total(dts.drop_first()));
            if dts.drop_first().len() == 0 {
                assert(total(dts.drop_first()) == 0);
            }
            lemma_tween_completes(q, dts.drop_first());
        }
    }
}

/// While a tween runs, the value stays between its start and end values.
pub proof fn lemma_tween_stays_between(p: Parameter, dts: Seq<u64>)
    requires
        p.wf(),
        p.tween is Some,
    ensures
        between(steps(p, dts).value as int, p.tween->0.start as int, p.tween->0.end as int),
        steps(p, dts).wf(),
    decreases dts.len(),
{
    let tw = p.tween->0;
    if dts.len() > 0 {
        let q = p.step_spec(dts[0]);
        lemma_step_wf(p, dts[0]);
        if dts[0] >= tw.duration - tw.elapsed {
            lemma_steps_idle(q, dts.drop_first());
        } else {
            lemma_tween_stays_between(q, dts.drop_first());
        }
    }
}

} // verus!
