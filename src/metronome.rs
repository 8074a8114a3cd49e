use vstd::prelude::*;
use crate::parameter::total;

verus! {

/// An interval event: the metronome crossed `position`, a multiple of `interval`.
#[derive(Clone, Copy, Debug, PartialEq, Eq, Structural)]
pub struct IntervalEvent {
    pub interval: u64,
    pub position: u64,
}

/// A musical clock.
///
/// Positions and intervals are counted in beat units: one beat is
/// `units_per_beat` units, which is sixty times the sample rate, so that one
/// frame at `tempo_bpm` beats per minute advances the position by exactly
/// `tempo_bpm` units.
pub struct Metronome {
    pub tempo_bpm: u64,
    pub units_per_beat: u64,
    pub position: u64,
    pub running: bool,
    pub intervals: Vec<u64>,
}

/// Strictly ascending positive intervals.
pub open spec fn intervals_ok(ivs: Seq<u64>) -> bool {
    &&& forall|i: int| 0 <= i < ivs.len() ==> ivs[i] > 0
    &&& forall|i: int, j: int| 0 <= i < j < ivs.len() ==> ivs[i] < ivs[j]
}

/// The distinct values of `v` in ascending order, for a metronome's intervals.
pub fn ordered_intervals(v: &Vec<u64>) -> (r: Vec<u64>)
    requires
        forall|i: int| 0 <= i < v@.len() ==> v@[i] > 0,
    ensures
        intervals_ok(r@),
        forall|x: u64| r@.contains(x) <==> v@.contains(x),
{
    let mut r: Vec<u64> = Vec::new();
    let mut i: usize = 0;
    while i < v.len()
        invariant
            0 <= i <= v@.len(),
            forall|k: int| 0 <= k < v@.len() ==> v@[k] > 0,
            intervals_ok(r@),
            forall|x: u64| r@.contains(x) ==> v@.take(i as int).contains(x),
            forall|k: int| 0 <= k < i ==> r@.contains(#[trigger] v@[k]),
        decreases v@.len() - i,
    {
        let x = v[i];
        let mut j: usize = 0;
        while j < r.len() && r[j] < x
            invariant
                0 <= j <= r@.len(),
                forall|k: int| 0 <= k < j ==> r@[k] < x,
            decreases r@.len() - j,
        {
            j = j + 1;
        }
        let ghost before = r@;
        if j < r.len() && r[j] == x {
            assert forall|y: u64| r@.contains(y) implies v@.take(i + 1).contains(y) by {
                let w = choose|w: int| 0 <= w < i && v@.take(i as int)[w] == y;
                assert(v@.take(i + 1)[w] == y);
            }
            assert(r@[j as int] == x);
        } else {
            r.insert(j, x);
            assert(r@ == before.insert(j as int, x));
            assert forall|a: int, b: int| 0 <= a < b < r@.len() implies r@[a] < r@[b] by {
                if b < j {
                } else if a < j && b == j {
                } else if a < j {
                    assert(r@[b] == before[b - 1]);
                } else if a == j {
                    assert(r@[b] == before[b - 1]);
                    assert(j < before.len());
                    assert(before[j as int] >= x);
                    if b - 1 > j {
                        assert(before[j as int] < before[b - 1]);
                    }
                } else {
                    assert(r@[a] == before[a - 1]);
                    assert(r@[b] == before[b - 1]);
                }
            }
            assert forall|y: u64| r@.contains(y) implies v@.take(i + 1).contains(y) by {
                let p = choose|p: int| 0 <= p < r@.len() && r@[p] == y;
                if p == j {
                    assert(v@.take(i + 1)[i as int] == x);
                } else {
                    let q = if p < j { p } else { p - 1 };
                    assert(before[q] == y);
                    assert(before.contains(y));
                    let w = choose|w: int| 0 <= w < i && v@.take(i as int)[w] == y;
                    assert(v@.take(i + 1)[w] == y);
                }
            }
            assert forall|k: int| 0 <= k < i implies r@.contains(#[trigger] v@[k]) by {
                assert(before.contains(v@[k]));
                let p = choose|p: int| 0 <= p < before.len() && before[p] == v@[k];
                if p < j {
                    assert(r@[p] == v@[k]);
                } else {
                    assert(r@[p + 1] == v@[k]);
                }
            }
            assert(r@[j as int] == x);
        }
        i = i + 1;
    }
    assert(v@.take(v@.len() as int) =~= v@);
    assert forall|x: u64| v@.contains(x) implies r@.contains(x) by {
        let k = choose|k: int| 0 <= k < v@.len() && v@[k] == x;
    }
    r
}

/// Events for the multiples `k * x` with `lo < k <= hi`, by `k` ascending.
pub open spec fn multiples(x: u64, lo: int, hi: int) -> Seq<IntervalEvent>
    decreases hi - lo,
{
    if hi <= lo {
        seq![]
    } else {
        multiples(x, lo, hi - 1).push(IntervalEvent { interval: x, position: (hi * x) as u64 })
    }
}

/// Events fired when the position moves from `prev` to `new`: by interval
/// ascending, then by multiple ascending.
pub open spec fn fired(ivs: Seq<u64>, prev: int, new: int) -> Seq<IntervalEvent>
    decreases ivs.len(),
{
    if ivs.len() == 0 {
        seq![]
    } else {
        fired(ivs.drop_last(), prev, new) + multiples(ivs.last(), prev / ivs.last() as int, new
            / ivs.last() as int)
    }
}

/// Number of events of interval `x` in `s`.
pub open spec fn count_of(s: Seq<IntervalEvent>, x: u64) -> int
    decreases s.len(),
{
    if s.len() == 0 {
        0
    } else {
        count_of(s.drop_last(), x) + if s.last().interval == x {
            1int
        } else {
            0
        }
    }
}

/// Position and events after one tick of `dt` frames.
pub open spec fn tick_spec(running: bool, tempo: u64, ivs: Seq<u64>, pos: u64, dt: u64) -> (u64, Seq<IntervalEvent>) {
    if running {
        let new = pos + dt * tempo;
        (new as u64, fired(ivs, pos as int, new))
    } else {
        (pos, seq![])
    }
}

/// Position and events after ticks of each of `dts` in turn.
pub open spec fn run(running: bool, tempo: u64, ivs: Seq<u64>, pos: u64, dts: Seq<u64>) -> (u64, Seq<IntervalEvent>)
    decreases dts.len(),
{
    if dts.len() == 0 {
        (pos, seq![])
    } else {
        let (pos1, ev1) = tick_spec(running, tempo, ivs, pos, dts[0]);
        let (pos2, ev2) = run(running, tempo, ivs, pos1, dts.drop_first());
        (pos2, ev1 + ev2)
    }
}

impl Metronome {
    pub open spec fn wf(&self) -> bool {
        &&& intervals_ok(self.intervals@)
        &&& self.units_per_beat > 0
    }

    /// A stopped metronome at position zero; `sample_rate` frames make one second.
    pub fn new(tempo_bpm: u64, sample_rate: u32, intervals: Vec<u64>) -> (r: Metronome)
        requires
            sample_rate > 0,
            intervals_ok(intervals@),
        ensures
            r.wf(),
            r.tempo_bpm == tempo_bpm,
            r.units_per_beat == 60 * sample_rate,
            r.position == 0,
            !r.running,
            r.intervals@ == intervals@,
    {
        Metronome {
            tempo_bpm,
            units_per_beat: 60 * (sample_rate as u64),
            position: 0,
            running: false,
            intervals,
        }
    }

    /// Sets the tempo in beats per minute.
    pub fn set_tempo(&mut self, tempo_bpm: u64)
        ensures
            final(self).tempo_bpm == tempo_bpm,
            final(self).position == old(self).position,
            final(self).running == old(self).running,
            final(self).units_per_beat == old(self).units_per_beat,
            final(self).intervals@ == old(self).intervals@,
    {
        self.tempo_bpm = tempo_bpm;
    }

    /// Starts the clock from where it stands.
    pub fn start(&mut self)
        ensures
            final(self).running,
            final(self).position == old(self).position,
            final(self).tempo_bpm == old(self).tempo_bpm,
            final(self).units_per_beat == old(self).units_per_beat,
            final(self).intervals@ == old(self).intervals@,
    {
        self.running = true;
    }

    /// Halts the clock, keeping its position.
    pub fn pause(&mut self)
        ensures
            !final(self).running,
            final(self).position == old(self).position,
            final(self).tempo_bpm == old(self).tempo_bpm,
            final(self).units_per_beat == old(self).units_per_beat,
            final(self).intervals@ == old(self).intervals@,
    {
        self.running = false;
    }

    /// Halts the clock and rewinds it to position zero.
    pub fn stop(&mut self)
        ensures
            !final(self).running,
            final(self).position == 0,
            final(self).tempo_bpm == old(self).tempo_bpm,
            final(self).units_per_beat == old(self).units_per_beat,
            final(self).intervals@ == old(self).intervals@,
    {
        self.running = false;
        self.position = 0;
    }

    /// Advances the clock by `dt` frames if it runs, appending the interval
    /// events it crossed to `events`.
    pub fn tick(&mut self, dt: u64, events: &mut Vec<IntervalEvent>)
        requires
            old(self).wf(),
            old(self).position + dt * old(self).tempo_bpm <= u64::MAX,
        ensures
            final(self).wf(),
            (final(self).position, final(events)@.skip(old(events)@.len() as int)) == tick_spec(
                old(self).running,
                old(self).tempo_bpm,
                old(self).intervals@,
                old(self).position,
                dt,
            ),
            final(events)@.take(old(events)@.len() as int) == old(events)@,
            final(self).position >= old(self).position,
            final(self).running == old(self).running,
            final(self).tempo_bpm == old(self).tempo_bpm,
            final(self).units_per_beat == old(self).units_per_beat,
            final(self).intervals@ == old(self).intervals@,
    {
        let ghost start = events@;
        if !self.running {
            assert(events@.skip(start.len() as int) =~= seq![]);
            assert(events@.take(start.len() as int) =~= start);
            return;
        }
        assert(dt * self.tempo_bpm <= u64::MAX) by (nonlinear_arith)
            requires
                self.position + dt * self.tempo_bpm <= u64::MAX,
        ;
        let prev = self.position;
        let new = prev + dt * self.tempo_bpm;
        let mut i: usize = 0;
        while i < self.intervals.len()
            invariant
                self.wf(),
                0 <= i <= self.intervals@.len(),
                prev <= new,
                events@ == start + fired(self.intervals@.take(i as int), prev as int, new as int),
            decreases self.intervals@.len() - i,
        {
            let x = self.intervals[i];
            assert(x > 0);
            let hi = new / x;
            let mut k = prev / x;
            let ghost before = events@;
            assert(prev / x <= new / x) by (nonlinear_arith)
                requires
                    prev <= new,
                    x > 0,
            ;
            while k < hi
                invariant
                    x > 0,
                    hi == new / x,
                    prev / x <= k <= hi,
                    events@ == before + multiples(x, (prev / x) as int, k as int),
                decreases hi - k,
            {
                k = k + 1;
                assert(k * x <= new) by (nonlinear_arith)
                    requires
                        k <= new / x,
                        x > 0,
                ;
                events.push(IntervalEvent { interval: x, position: k * x });
            }
            proof {
                let ivs = self.intervals@;
                assert(ivs.take(i + 1).drop_last() =~= ivs.take(i as int));
                assert(ivs.take(i + 1).last() == x);
                vstd::seq_lib::lemma_concat_associative(start, fired(ivs.take(i as int), prev as int, new as int), multiples(x, (prev / x) as int, hi as int));
            }
            i = i + 1;
        }
        assert(self.intervals@.take(self.intervals@.len() as int) =~= self.intervals@);
        assert(events@.skip(start.len() as int) =~= fired(self.intervals@, prev as int, new as int));
        assert(events@.take(start.len() as int) =~= start);
        self.position = new;
    }
}

proof fn lemma_count_concat(a: Seq<IntervalEvent>, b: Seq<IntervalEvent>, x: u64)
    ensures
        count_of(a + b, x) == count_of(a, x) + count_of(b, x),
    decreases b.len(),
{
    if b.len() > 0 {
        lemma_count_concat(a, b.drop_last(), x);
        assert((a + b).drop_last() =~= a + b.drop_last());
    } else {
        assert(a + b =~= a);
    }
}

proof fn lemma_count_multiples(y: u64, lo: int, hi: int, x: u64)
    ensures
        count_of(multiples(y, lo, hi), x) == if y == x && hi > lo {
            hi - lo
        } else {
            0
        },
    decreases hi - lo,
{
    if hi > lo {
        lemma_count_multiples(y, lo, hi - 1, x);
        let m = multiples(y, lo, hi);
        assert(m.drop_last() =~= multiples(y, lo, hi - 1));
    }
}

proof fn lemma_count_fired(ivs: Seq<u64>, prev: int, new: int, x: u64)
    requires
        intervals_ok(ivs),
        0 <= prev <= new,
    ensures
        count_of(fired(ivs, prev, new), x) == if ivs.contains(x) {
            new / (x as int) - prev / (x as int)
        } else {
            0
        },
    decreases ivs.len(),
{
    if ivs.len() > 0 {
        let rest = ivs.drop_last();
        let y = ivs.last();
        lemma_count_fired(rest, prev, new, x);
        lemma_count_concat(fired(rest, prev, new), multiples(y, prev / y as int, new / y as int), x);
        lemma_count_multiples(y, prev / y as int, new / y as int, x);
        assert(prev / (y as int) <= new / (y as int)) by (nonlinear_arith)
            requires
                prev <= new,
                y > 0,
        ;
        if y == x {
            assert(!rest.contains(x)) by {
                if rest.contains(x) {
                    let j = choose|j: int| 0 <= j < rest.len() && rest[j] == x;
                    assert(ivs[j] < ivs[ivs.len() - 1]);
                }
            }
            assert(ivs.contains(x)) by {
                assert(ivs[ivs.len() - 1] == x);
            }
        } else {
            assert(ivs.contains(x) == rest.contains(x)) by {
                if ivs.contains(x) {
                    let j = choose|j: int| 0 <= j < ivs.len() && ivs[j] == x;
                    assert(rest[j] == x);
                }
                if rest.contains(x) {
                    let j = choose|j: int| 0 <= j < rest.len() && rest[j] == x;
                    assert(ivs[j] == x);
                }
            }
        }
    }
}

/// A metronome never moves backward: after any series of ticks its position is
/// its starting position plus tempo times elapsed frames if it runs, and
/// unchanged otherwise.
pub proof fn lemma_position_monotone(running: bool, tempo: u64, ivs: Seq<u64>, pos: u64, dts: Seq<u64>)
    requires
        pos + tempo * total(dts) <= u64::MAX,
    ensures
        run(running, tempo, ivs, pos, dts).0 == if running {
            pos + tempo * total(dts)
        } else {
            pos as int
        },
        run(running, tempo, ivs, pos, dts).0 >= pos,
    decreases dts.len(),
{
    if dts.len() > 0 {
        let rest = dts.drop_first();
        lemma_total_nonneg(rest);
        assert(tempo * total(dts) == dts[0] * tempo + tempo * total(rest)) by (nonlinear_arith)
            requires
                total(dts) == dts[0] + total(rest),
        ;
        assert(tempo * total(rest) >= 0) by (nonlinear_arith)
            requires
                total(rest) >= 0,
        ;
        assert(dts[0] * tempo >= 0) by (nonlinear_arith);
        let pos1 = tick_spec(running, tempo, ivs, pos, dts[0]).0;
        lemma_position_monotone(running, tempo, ivs, pos1, rest);
    } else {
        assert(tempo * 0 == 0);
    }
}

proof fn lemma_total_nonneg(dts: Seq<u64>)
    ensures
        total(dts) >= 0,
    decreases dts.len(),
{
    if dts.len() > 0 {
        lemma_total_nonneg(dts.drop_first());
    }
}

proof fn lemma_count_from(tempo: u64, ivs: Seq<u64>, pos: u64, dts: Seq<u64>, x: u64)
    requires
        intervals_ok(ivs),
        ivs.contains(x),
        pos + tempo * total(dts) <= u64::MAX,
    ensures
        count_of(run(true, tempo, ivs, pos, dts).1, x) == (pos + tempo * total(dts)) / (x as int)
            - (pos as int) / (x as int),
    decreases dts.len(),
{
    assert(x > 0) by {
        let j = choose|j: int| 0 <= j < ivs.len() && ivs[j] == x;
    }
    if dts.len() > 0 {
        let rest = dts.drop_first();
        lemma_total_nonneg(rest);
        assert(tempo * total(dts) == dts[0] * tempo + tempo * total(rest)) by (nonlinear_arith)
            requires
                total(dts) == dts[0] + total(rest),
        ;
        assert(tempo * total(rest) >= 0) by (nonlinear_arith)
            requires
                total(rest) >= 0,
        ;
        assert(dts[0] * tempo >= 0) by (nonlinear_arith);
        let (pos1, ev1) = tick_spec(true, tempo, ivs, pos, dts[0]);
        lemma_count_from(tempo, ivs, pos1, rest, x);
        lemma_count_fired(ivs, pos as int, pos1 as int, x);
        lemma_count_concat(ev1, run(true, tempo, ivs, pos1, rest).1, x);
    } else {
        assert(tempo * 0 == 0);
    }
}

/// A metronome started at position zero with a constant tempo has fired, for
/// each of its intervals `x`, exactly `floor(tempo * frames / x)` events of
/// that interval, with tempo and interval in beat units per frame.
pub proof fn lemma_interval_event_count(tempo: u64, ivs: Seq<u64>, dts: Seq<u64>, x: u64)
    requires
        intervals_ok(ivs),
        ivs.contains(x),
        tempo * total(dts) <= u64::MAX,
    ensures
        count_of(run(true, tempo, ivs, 0, dts).1, x) == tempo * total(dts) / (x as int),
{
    lemma_count_from(tempo, ivs, 0, dts, x);
    assert(x > 0) by {
        let j = choose|j: int| 0 <= j < ivs.len() && ivs[j] == x;
    }
    assert(0int / (x as int) == 0);
}

} // verus!
