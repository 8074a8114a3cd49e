use vstd::prelude::*;
use crate::tween::{Tween, ONE};
use crate::instance::{InstanceId, InstanceSettings};
use crate::sound::SoundId;

verus! {

/// Names a sequence.
#[derive(Clone, Copy, Debug, PartialEq, Eq, Structural)]
pub struct SequenceId {
    pub index: u64,
}

/// An event of the client's choosing, passed through unchanged.
#[derive(Clone, Copy, Debug, PartialEq, Eq, Structural)]
pub struct CustomEvent {
    pub id: u64,
}

/// A span of time: frames of the output stream, or millionths of a beat.
#[derive(Clone, Copy, Debug, PartialEq, Eq, Structural)]
pub enum Duration {
    Frames(u64),
    Beats(u64),
}

/// Length of `d` in frames at `tempo_bpm` and `sample_rate`, rounded down and
/// capped at `u64::MAX`; beats at tempo zero never end.
pub open spec fn frames_of(d: Duration, tempo_bpm: u64, sample_rate: u32) -> u64 {
    match d {
        Duration::Frames(f) => f,
        Duration::Beats(b) => if tempo_bpm == 0 {
            u64::MAX
        } else {
            let f = b * 60 * sample_rate / (tempo_bpm * ONE);
            if f > u64::MAX {
                u64::MAX
            } else {
                f as u64
            }
        },
    }
}

impl Duration {
    pub fn in_frames(&self, tempo_bpm: u64, sample_rate: u32) -> (r: u64)
        ensures
            r == frames_of(*self, tempo_bpm, sample_rate),
    {
        match *self {
            Duration::Frames(f) => f,
            Duration::Beats(b) => {
                if tempo_bpm == 0 {
                    u64::MAX
                } else {
                    assert((b as int) * 60 * (sample_rate as int) <= (u64::MAX as int) * 60 * (
                    u32::MAX as int)) by (nonlinear_arith);
                    assert((tempo_bpm as int) * (ONE as int) <= (u64::MAX as int) * (ONE as int))
                        by (nonlinear_arith);
                    let f: u128 = (b as u128) * 60 * (sample_rate as u128) / ((tempo_bpm as u128)
                        * (ONE as u128));
                    if f > u64::MAX as u128 {
                        u64::MAX
                    } else {
                        f as u64
                    }
                }
            },
        }
    }
}

/// Where a looped sound's loop starts and ends; unset, the start is the
/// beginning and the end the sound's musical length (or its full length).
#[derive(Clone, Copy, Debug, PartialEq, Eq, Structural)]
pub struct LoopSettings {
    pub start: Option<Duration>,
    pub end: Option<Duration>,
}

/// What a sequence hands on to the rest of the engine.
#[derive(Clone, Copy, Debug, PartialEq, Eq, Structural)]
pub enum SequenceOutputCommand {
    PlaySound(SoundId, InstanceId, InstanceSettings),
    SetInstanceVolume(InstanceId, i64, Option<Tween>),
    SetInstancePitch(InstanceId, i64, Option<Tween>),
    PauseInstance(InstanceId, Option<Tween>),
    ResumeInstance(InstanceId, Option<Tween>),
    StopInstance(InstanceId, Option<Tween>),
    PauseInstancesOfSound(SoundId, Option<Tween>),
    ResumeInstancesOfSound(SoundId, Option<Tween>),
    StopInstancesOfSound(SoundId, Option<Tween>),
    SetMetronomeTempo(u64),
    StartMetronome,
    PauseMetronome,
    StopMetronome,
    EmitCustomEvent(CustomEvent),
}

/// One step of an authored timeline.
#[derive(Clone, Copy, Debug, PartialEq, Eq, Structural)]
pub enum SequenceStep {
    Wait(Duration),
    /// Waits until the metronome crosses a multiple of this many beat units.
    WaitForInterval(u64),
    StartLoop,
    GoToStep(usize),
    /// Hands a command on.
    Output(SequenceOutputCommand),
}

#[derive(Clone, Copy, Debug, PartialEq, Eq, Structural)]
pub enum SequenceState {
    Playing,
    Paused,
    Finished,
}

/// A timeline and where its interpreter stands in it.
pub struct Sequence {
    pub steps: Vec<SequenceStep>,
    pub pc: usize,
    pub muted: bool,
    pub state: SequenceState,
    pub wait_timer: u64,
    pub loop_anchor: Option<usize>,
}

/// Steps a tick may run: two more than the timeline holds, so that a full
/// turn of a loop fits.
pub open spec fn step_budget(len: nat) -> nat {
    if len < usize::MAX - 2 {
        len + 2
    } else {
        usize::MAX as nat
    }
}

/// Whether the metronome crossed a multiple of `x` moving from `prev` to `new`.
pub open spec fn crossed(x: u64, prev: u64, new: u64) -> bool {
    x == 0 || new / x > prev / x
}

impl Sequence {
    /// Executes the step at `pc` of a playing sequence that is not waiting:
    /// the new state, what it emits, and whether the tick goes on to the next
    /// step.
    pub open spec fn exec_spec(self, tempo_bpm: u64, sample_rate: u32, prev: u64, new: u64) -> (Sequence, Option<SequenceOutputCommand>, bool) {
        if self.pc >= self.steps@.len() {
            match self.loop_anchor {
                Some(a) => (Sequence { pc: a, ..self }, None, true),
                None => (Sequence { state: SequenceState::Finished, ..self }, None, false),
            }
        } else {
            let next = (self.pc + 1) as usize;
            match self.steps@[self.pc as int] {
                SequenceStep::Wait(d) => {
                    let w = frames_of(d, tempo_bpm, sample_rate);
                    (Sequence { wait_timer: w, pc: next, ..self }, None, w == 0)
                },
                SequenceStep::WaitForInterval(x) => if crossed(x, prev, new) {
                    (Sequence { pc: next, ..self }, None, true)
                } else {
                    (self, None, false)
                },
                SequenceStep::StartLoop => (Sequence {
                    loop_anchor: Some(next),
                    pc: next,
                    ..self
                }, None, true),
                SequenceStep::GoToStep(i) => (Sequence { pc: i, ..self }, None, true),
                SequenceStep::Output(c) => (Sequence { pc: next, ..self }, match c {
                    SequenceOutputCommand::PlaySound(..) if self.muted => None,
                    _ => Some(c),
                }, true),
            }
        }
    }

    /// Executes steps until the sequence blocks or `budget` steps were run.
    pub open spec fn run_spec(self, budget: nat, tempo_bpm: u64, sample_rate: u32, prev: u64, new: u64) -> (Sequence, Seq<SequenceOutputCommand>)
        decreases budget,
    {
        if budget == 0 {
            (self, seq![])
        } else {
            let (s1, o, go_on) = self.exec_spec(tempo_bpm, sample_rate, prev, new);
            let emitted = match o {
                Some(c) => seq![c],
                None => seq![],
            };
            if go_on {
                let (s2, rest) = s1.run_spec((budget - 1) as nat, tempo_bpm, sample_rate, prev, new);
                (s2, emitted + rest)
            } else {
                (s1, emitted)
            }
        }
    }

    /// The sequence and what it emits after one tick of `dt` frames, during
    /// which the metronome moved from `prev` to `new` at `tempo_bpm`. A wait
    /// that runs out during the tick lets the following steps run in it; at
    /// most two more steps than the timeline holds run per tick.
    pub open spec fn tick_spec(self, dt: u64, tempo_bpm: u64, sample_rate: u32, prev: u64, new: u64) -> (Sequence, Seq<SequenceOutputCommand>) {
        if self.state != SequenceState::Playing {
            (self, seq![])
        } else if self.wait_timer > dt {
            (Sequence { wait_timer: (self.wait_timer - dt) as u64, ..self }, seq![])
        } else {
            Sequence { wait_timer: 0, ..self }.run_spec(step_budget(self.steps@.len()), tempo_bpm, sample_rate, prev, new)
        }
    }

    /// An empty timeline, not yet started.
    pub fn new() -> (r: Sequence)
        ensures
            r.steps@ == Seq::<SequenceStep>::empty(),
            r.pc == 0,
            !r.muted,
            r.state == SequenceState::Paused,
            r.wait_timer == 0,
            r.loop_anchor is None,
    {
        Sequence {
            steps: Vec::new(),
            pc: 0,
            muted: false,
            state: SequenceState::Paused,
            wait_timer: 0,
            loop_anchor: None,
        }
    }

    /// Appends a step.
    pub fn push(&mut self, step: SequenceStep)
        ensures
            final(self).steps@ == old(self).steps@.push(step),
            final(self).pc == old(self).pc,
            final(self).muted == old(self).muted,
            final(self).state == old(self).state,
            final(self).wait_timer == old(self).wait_timer,
            final(self).loop_anchor == old(self).loop_anchor,
    {
        self.steps.push(step);
    }

    /// Appends a step that plays `sound_id` as instance `instance_id`.
    pub fn play_sound(&mut self, sound_id: SoundId, instance_id: InstanceId, settings: InstanceSettings)
        ensures
            final(self).steps@ == old(self).steps@.push(
                SequenceStep::Output(SequenceOutputCommand::PlaySound(sound_id, instance_id, settings)),
            ),
            final(self).pc == old(self).pc,
            final(self).muted == old(self).muted,
            final(self).state == old(self).state,
            final(self).wait_timer == old(self).wait_timer,
            final(self).loop_anchor == old(self).loop_anchor,
    {
        self.push(SequenceStep::Output(SequenceOutputCommand::PlaySound(sound_id, instance_id, settings)));
    }

    /// Appends a wait.
    pub fn wait(&mut self, duration: Duration)
        ensures
            final(self).steps@ == old(self).steps@.push(SequenceStep::Wait(duration)),
            final(self).pc == old(self).pc,
            final(self).muted == old(self).muted,
            final(self).state == old(self).state,
            final(self).wait_timer == old(self).wait_timer,
            final(self).loop_anchor == old(self).loop_anchor,
    {
        self.push(SequenceStep::Wait(duration));
    }

    /// Appends the point the timeline returns to when it runs off its end.
    pub fn start_loop(&mut self)
        ensures
            final(self).steps@ == old(self).steps@.push(SequenceStep::StartLoop),
            final(self).pc == old(self).pc,
            final(self).muted == old(self).muted,
            final(self).state == old(self).state,
            final(self).wait_timer == old(self).wait_timer,
            final(self).loop_anchor == old(self).loop_anchor,
    {
        self.push(SequenceStep::StartLoop);
    }

    /// The timeline set to run from its first step.
    pub open spec fn started(self) -> Sequence {
        Sequence {
            pc: 0,
            state: SequenceState::Playing,
            wait_timer: 0,
            loop_anchor: None,
            ..self
        }
    }

    /// Starts the timeline from its first step.
    pub fn start(&mut self)
        ensures
            *final(self) == old(self).started(),
    {
        self.pc = 0;
        self.state = SequenceState::Playing;
        self.wait_timer = 0;
        self.loop_anchor = None;
    }

    pub fn mute(&mut self)
        ensures
            *final(self) == (Sequence { muted: true, ..*old(self) }),
    {
        self.muted = true;
    }

    pub fn unmute(&mut self)
        ensures
            *final(self) == (Sequence { muted: false, ..*old(self) }),
    {
        self.muted = false;
    }

    /// Freezes a playing timeline where it stands.
    pub fn pause(&mut self)
        ensures
            old(self).state == SequenceState::Playing ==> *final(self) == (Sequence {
                state: SequenceState::Paused,
                ..*old(self)
            }),
            old(self).state != SequenceState::Playing ==> *final(self) == *old(self),
    {
        if self.state == SequenceState::Playing {
            self.state = SequenceState::Paused;
        }
    }

    /// Lets a paused timeline go on.
    pub fn resume(&mut self)
        ensures
            old(self).state == SequenceState::Paused ==> *final(self) == (Sequence {
                state: SequenceState::Playing,
                ..*old(self)
            }),
            old(self).state != SequenceState::Paused ==> *final(self) == *old(self),
    {
        if self.state == SequenceState::Paused {
            self.state = SequenceState::Playing;
        }
    }

    /// Ends the timeline.
    pub fn stop(&mut self)
        ensures
            *final(self) == (Sequence { state: SequenceState::Finished, ..*old(self) }),
    {
        self.state = SequenceState::Finished;
    }

    fn exec_step(&mut self, tempo_bpm: u64, sample_rate: u32, prev: u64, new: u64, out: &mut Vec<SequenceOutputCommand>) -> (go_on: bool)
        ensures
            *final(self) == old(self).exec_spec(tempo_bpm, sample_rate, prev, new).0,
            go_on == old(self).exec_spec(tempo_bpm, sample_rate, prev, new).2,
            final(out)@ == old(out)@ + match old(self).exec_spec(tempo_bpm, sample_rate, prev, new).1 {
                Some(c) => seq![c],
                None => seq![],
            },
    {
        if self.pc >= self.steps.len() {
            match self.loop_anchor {
                Some(a) => {
                    self.pc = a;
                    assert(out@ =~= old(out)@ + seq![]);
                    return true;
                },
                None => {
                    self.state = SequenceState::Finished;
                    assert(out@ =~= old(out)@ + seq![]);
                    return false;
                },
            }
        }
        let next = self.pc + 1;
        let go_on = match self.steps[self.pc] {
            SequenceStep::Wait(d) => {
                let w = d.in_frames(tempo_bpm, sample_rate);
                self.wait_timer = w;
                self.pc = next;
                w == 0
            },
            SequenceStep::WaitForInterval(x) => {
                if x == 0 || new / x > prev / x {
                    self.pc = next;
                    true
                } else {
                    false
                }
            },
            SequenceStep::StartLoop => {
                self.loop_anchor = Some(next);
                self.pc = next;
                true
            },
            SequenceStep::GoToStep(i) => {
                self.pc = i;
                true
            },
            SequenceStep::Output(c) => {
                self.pc = next;
                match c {
                    SequenceOutputCommand::PlaySound(..) if self.muted => {},
                    _ => {
                        out.push(c);
                    },
                }
                true
            },
        };
        assert(out@ =~= old(out)@ + match old(self).exec_spec(tempo_bpm, sample_rate, prev, new).1 {
            Some(c) => seq![c],
            None => seq![],
        });
        go_on
    }

    /// Runs one tick of `dt` frames, during which the metronome moved from
    /// `prev` to `new` at `tempo_bpm`, appending what it emits to `out`.
    pub fn tick(
        &mut self,
        dt: u64,
        tempo_bpm: u64,
        sample_rate: u32,
        prev: u64,
        new: u64,
        out: &mut Vec<SequenceOutputCommand>,
    )
        ensures
            *final(self) == old(self).tick_spec(dt, tempo_bpm, sample_rate, prev, new).0,
            final(out)@ == old(out)@ + old(self).tick_spec(dt, tempo_bpm, sample_rate, prev, new).1,
    {
        if self.state != SequenceState::Playing {
            assert(out@ =~= old(out)@ + seq![]);
            return;
        }
        if self.wait_timer > dt {
            self.wait_timer = self.wait_timer - dt;
            assert(out@ =~= old(out)@ + seq![]);
            return;
        }
        self.wait_timer = 0;
        let ghost goal = old(self).tick_spec(dt, tempo_bpm, sample_rate, prev, new);
        let ghost out0 = out@;
        assert(out@.subrange(out0.len() as int, out@.len() as int) + goal.1 =~= goal.1);
        assert(out@.subrange(0, out0.len() as int) =~= out0);
        let budget: usize = if self.steps.len() < usize::MAX - 2 { self.steps.len() + 2 } else { usize::MAX };
        let mut left: usize = budget;
        loop
            invariant_except_break
                goal == (self.run_spec(left as nat, tempo_bpm, sample_rate, prev, new).0, out@.subrange(out0.len() as int, out@.len() as int) + self.run_spec(left as nat, tempo_bpm, sample_rate, prev, new).1),
            invariant
                out@.len() >= out0.len(),
                out@.subrange(0, out0.len() as int) == out0,
            ensures
                goal == (*self, out@.subrange(out0.len() as int, out@.len() as int)),
                out@.subrange(0, out0.len() as int) == out0,
            decreases left,
        {
            if left == 0 {
                assert(out@.subrange(out0.len() as int, out@.len() as int) + seq![] =~= out@.subrange(out0.len() as int, out@.len() as int));
                break;
            }
            let ghost before = out@;
            let go_on = self.exec_step(tempo_bpm, sample_rate, prev, new, out);
            left = left - 1;
            assert(out@.subrange(0, out0.len() as int) =~= out0);
            if !go_on {
                assert(goal.1 =~= out@.subrange(out0.len() as int, out@.len() as int));
                break;
            }
            assert(before.subrange(out0.len() as int, before.len() as int) + (out@.subrange(before.len() as int, out@.len() as int)) =~= out@.subrange(out0.len() as int, out@.len() as int));
        }
        assert(out@ =~= out0 + out@.subrange(out0.len() as int, out@.len() as int));
    }

    pub fn finished(&self) -> (r: bool)
        ensures
            r == (self.state == SequenceState::Finished),
    {
        self.state == SequenceState::Finished
    }
}

} // verus!
