use vstd::prelude::*;
use crate::command::InstanceCommand;
use crate::instance::{Instance, InstanceId, PlaybackState, abs, clamp_spec, immediate, OUT_BOUND};
use crate::parameter::Parameter;
use crate::sound::{Frame, Sound, SoundId};
use crate::store::Sounds;
use crate::tween::{Tween, ONE};

verus! {

pub open spec fn pause_spec(i: Instance, t: Option<Tween>) -> Instance {
    if i.state == PlaybackState::Playing || i.state == PlaybackState::Resuming {
        if immediate(t) {
            Instance { state: PlaybackState::Paused, fade: Parameter { value: 0, tween: None }, ..i }
        } else {
            Instance { state: PlaybackState::Pausing, fade: i.fade.set_spec(0, t), ..i }
        }
    } else {
        i
    }
}

pub open spec fn resume_spec(i: Instance, t: Option<Tween>) -> Instance {
    if i.state == PlaybackState::Paused || i.state == PlaybackState::Pausing {
        if immediate(t) {
            Instance { state: PlaybackState::Playing, fade: Parameter { value: ONE, tween: None }, ..i }
        } else {
            Instance { state: PlaybackState::Resuming, fade: i.fade.set_spec(ONE, t), ..i }
        }
    } else {
        i
    }
}

pub open spec fn stop_spec(i: Instance, t: Option<Tween>) -> Instance {
    if i.is_stopped() {
        i
    } else if immediate(t) {
        Instance { state: PlaybackState::Stopped, fade: Parameter { value: 0, tween: None }, ..i }
    } else {
        Instance { state: PlaybackState::Stopping, fade: i.fade.set_spec(0, t), ..i }
    }
}

pub open spec fn saturate(x: int) -> i64 {
    if x > i64::MAX {
        i64::MAX
    } else if x < i64::MIN {
        i64::MIN
    } else {
        x as i64
    }
}

/// An instance after a command addressed to it; a stopped one stays as it is.
pub open spec fn applied(i: Instance, c: InstanceCommand) -> Instance {
    if i.is_stopped() {
        i
    } else {
        match c {
            InstanceCommand::PlaySound(..) => i,
            InstanceCommand::SetInstanceVolume(_, v, t) => Instance { volume: i.volume.set_spec(clamp_spec(v), t), ..i },
            InstanceCommand::SetInstancePitch(_, v, t) => Instance { pitch: i.pitch.set_spec(clamp_spec(v), t), ..i },
            InstanceCommand::SetInstancePanning(_, v, t) => Instance { panning: i.panning.set_spec(clamp_spec(v), t), ..i },
            InstanceCommand::SeekInstanceTo(_, p) => Instance { position: p, ..i },
            InstanceCommand::SeekInstanceBy(_, d) => Instance { position: saturate(i.position + d), ..i },
            InstanceCommand::PauseInstance(_, t) => pause_spec(i, t),
            InstanceCommand::ResumeInstance(_, t) => resume_spec(i, t),
            InstanceCommand::StopInstance(_, t) => stop_spec(i, t),
            InstanceCommand::PauseInstancesOfSound(_, t) => pause_spec(i, t),
            InstanceCommand::ResumeInstancesOfSound(_, t) => resume_spec(i, t),
            InstanceCommand::StopInstancesOfSound(_, t) => stop_spec(i, t),
        }
    }
}

/// Whether a command is addressed to this instance: by its id, or by its
/// sound for the commands that go to every instance of a sound.
pub open spec fn addressed(e: (InstanceId, Instance), c: InstanceCommand) -> bool {
    match c {
        InstanceCommand::PlaySound(..) => false,
        InstanceCommand::SetInstanceVolume(id, _, _) => e.0 == id,
        InstanceCommand::SetInstancePitch(id, _, _) => e.0 == id,
        InstanceCommand::SetInstancePanning(id, _, _) => e.0 == id,
        InstanceCommand::SeekInstanceTo(id, _) => e.0 == id,
        InstanceCommand::SeekInstanceBy(id, _) => e.0 == id,
        InstanceCommand::PauseInstance(id, _) => e.0 == id,
        InstanceCommand::ResumeInstance(id, _) => e.0 == id,
        InstanceCommand::StopInstance(id, _) => e.0 == id,
        InstanceCommand::PauseInstancesOfSound(s, _) => e.1.sound_id == s,
        InstanceCommand::ResumeInstancesOfSound(s, _) => e.1.sound_id == s,
        InstanceCommand::StopInstancesOfSound(s, _) => e.1.sound_id == s,
    }
}

pub open spec fn routed(s: Seq<(InstanceId, Instance)>, c: InstanceCommand) -> Seq<(InstanceId, Instance)> {
    s.map_values(|e: (InstanceId, Instance)| if addressed(e, c) {
        (e.0, applied(e.1, c))
    } else {
        e
    })
}

/// The instances after a command: a new one for `PlaySound`, else the
/// command passed to every instance it is addressed to.
pub open spec fn after_command(s: Seq<(InstanceId, Instance)>, c: InstanceCommand) -> Seq<(InstanceId, Instance)> {
    match c {
        InstanceCommand::PlaySound(sound_id, id, settings) => s.push((id, Instance::new_spec(sound_id, settings))),
        _ => routed(s, c),
    }
}

fn apply(i: &mut Instance, c: InstanceCommand)
    requires
        old(i).wf(),
    ensures
        final(i).wf(),
        *final(i) == applied(*old(i), c),
{
    match c {
        InstanceCommand::PlaySound(..) => {},
        InstanceCommand::SetInstanceVolume(_, v, t) => i.set_volume(v, t),
        InstanceCommand::SetInstancePitch(_, v, t) => i.set_pitch(v, t),
        InstanceCommand::SetInstancePanning(_, v, t) => i.set_panning(v, t),
        InstanceCommand::SeekInstanceTo(_, p) => i.seek_to(p),
        InstanceCommand::SeekInstanceBy(_, d) => i.seek_by(d),
        InstanceCommand::PauseInstance(_, t) => i.pause(t),
        InstanceCommand::ResumeInstance(_, t) => i.resume(t),
        InstanceCommand::StopInstance(_, t) => i.stop(t),
        InstanceCommand::PauseInstancesOfSound(_, t) => i.pause(t),
        InstanceCommand::ResumeInstancesOfSound(_, t) => i.resume(t),
        InstanceCommand::StopInstancesOfSound(_, t) => i.stop(t),
    }
}

fn is_addressed(id: InstanceId, i: &Instance, c: InstanceCommand) -> (r: bool)
    ensures
        r == addressed((id, *i), c),
{
    match c {
        InstanceCommand::PlaySound(..) => false,
        InstanceCommand::SetInstanceVolume(x, _, _) => id == x,
        InstanceCommand::SetInstancePitch(x, _, _) => id == x,
        InstanceCommand::SetInstancePanning(x, _, _) => id == x,
        InstanceCommand::SeekInstanceTo(x, _) => id == x,
        InstanceCommand::SeekInstanceBy(x, _) => id == x,
        InstanceCommand::PauseInstance(x, _) => id == x,
        InstanceCommand::ResumeInstance(x, _) => id == x,
        InstanceCommand::StopInstance(x, _) => id == x,
        InstanceCommand::PauseInstancesOfSound(s, _) => i.sound_id == s,
        InstanceCommand::ResumeInstancesOfSound(s, _) => i.sound_id == s,
        InstanceCommand::StopInstancesOfSound(s, _) => i.sound_id == s,
    }
}

/// What the store resolves a sound id to.
pub open spec fn lookup(sounds: Map<u64, Sound>, id: SoundId) -> Option<Sound> {
    if sounds.contains_key(id.index) {
        Some(sounds[id.index])
    } else {
        None
    }
}

/// Every instance after one frame.
pub open spec fn stepped(s: Seq<(InstanceId, Instance)>, sounds: Map<u64, Sound>) -> Seq<(InstanceId, Instance)> {
    s.map_values(|e: (InstanceId, Instance)| (e.0, e.1.step_spec(1, lookup(sounds, e.1.sound_id)).0))
}

/// What every instance contributes in one frame.
pub open spec fn outputs(s: Seq<(InstanceId, Instance)>, sounds: Map<u64, Sound>) -> Seq<Frame> {
    s.map_values(|e: (InstanceId, Instance)| e.1.step_spec(1, lookup(sounds, e.1.sound_id)).1)
}

pub open spec fn sum_left(f: Seq<Frame>) -> int
    decreases f.len(),
{
    if f.len() == 0 {
        0
    } else {
        sum_left(f.drop_last()) + f.last().left
    }
}

pub open spec fn sum_right(f: Seq<Frame>) -> int
    decreases f.len(),
{
    if f.len() == 0 {
        0
    } else {
        sum_right(f.drop_last()) + f.last().right
    }
}

/// A stopped instance is final: no command changes it, and every step leaves
/// it stopped and contributes silence.
pub proof fn lemma_stopped_is_final(i: Instance, c: InstanceCommand, dt: u64, sound: Option<Sound>)
    requires
        i.is_stopped(),
    ensures
        applied(i, c) == i,
        i.step_spec(dt, sound).0.is_stopped(),
        i.step_spec(dt, sound).1 == (Frame { left: 0, right: 0 }),
{
}

/// Ids and positions of instances, in order.
pub open spec fn last_seen(s: Seq<(InstanceId, Instance)>) -> Seq<(InstanceId, i64)> {
    s.map_values(|e: (InstanceId, Instance)| (e.0, e.1.position))
}

/// All live instances, in the order they were started.
pub struct Instances {
    pub instances: Vec<(InstanceId, Instance)>,
}

impl Instances {
    pub open spec fn view(&self) -> Seq<(InstanceId, Instance)> {
        self.instances@
    }

    pub open spec fn wf(&self) -> bool {
        forall|i: int| 0 <= i < self@.len() ==> (#[trigger] self@[i]).1.wf()
    }

    pub fn new(capacity: usize) -> (r: Instances)
        ensures
            r.wf(),
            r@ == Seq::<(InstanceId, Instance)>::empty(),
    {
        Instances { instances: Vec::with_capacity(capacity) }
    }

    /// Starts a new instance for `PlaySound`; passes any other command to
    /// every instance it is addressed to. Unknown ids reach nobody.
    pub fn run_command(&mut self, c: InstanceCommand)
        requires
            old(self).wf(),
        ensures
            final(self).wf(),
            final(self)@ == after_command(old(self)@, c),
    {
        match c {
            InstanceCommand::PlaySound(sound_id, id, settings) => {
                self.instances.push((id, Instance::new(sound_id, settings)));
            },
            _ => {
                let ghost s0 = self@;
                let mut i: usize = 0;
                while i < self.instances.len()
                    invariant
                        self.wf(),
                        0 <= i <= s0.len(),
                        self@.len() == s0.len(),
                        !(c is PlaySound),
                        forall|j: int| 0 <= j < i ==> self@[j] == routed(s0, c)[j],
                        forall|j: int| i <= j < s0.len() ==> self@[j] == s0[j],
                    decreases s0.len() - i,
                {
                    let (id, mut inst) = self.instances[i];
                    if is_addressed(id, &inst, c) {
                        apply(&mut inst, c);
                        self.instances.set(i, (id, inst));
                    }
                    i = i + 1;
                }
                assert(self@ =~= routed(s0, c));
            },
        }
    }

    /// Steps every instance by one frame and mixes what they contribute,
    /// saturating at the ends of the sample range. Instances that are stopped
    /// afterwards are dropped, their ids and last positions appended to
    /// `stopped`.
    pub fn process(&mut self, sounds: &Sounds, stopped: &mut Vec<(InstanceId, i64)>) -> (out: Frame)
        requires
            old(self).wf(),
            sounds.wf(),
        ensures
            final(self).wf(),
            final(stopped)@ == old(stopped)@ + last_seen(stepped(old(self)@, sounds@).filter(
                |e: (InstanceId, Instance)| e.1.is_stopped(),
            )),
            final(self)@ == stepped(old(self)@, sounds@).filter(|e: (InstanceId, Instance)| !e.1.is_stopped()),
            out.left == saturate(sum_left(outputs(old(self)@, sounds@))),
            out.right == saturate(sum_right(outputs(old(self)@, sounds@))),
    {
        let ghost s0 = self@;
        let ghost live = |e: (InstanceId, Instance)| !e.1.is_stopped();
        let ghost dead = |e: (InstanceId, Instance)| e.1.is_stopped();
        let ghost stopped0 = stopped@;
        let ghost st = stepped(s0, sounds@);
        let mut left: i128 = 0;
        let mut right: i128 = 0;
        let mut i: usize = 0;
        let ghost mut p: int = 0;
        let count = self.instances.len();
        loop
            invariant_except_break
                self@ == st.take(p).filter(live) + s0.skip(p),
            invariant
                self.wf(),
                sounds.wf(),
                0 <= p <= s0.len(),
                s0.len() == count,
                i == st.take(p).filter(live).len(),
                st == stepped(s0, sounds@),
                live == (|e: (InstanceId, Instance)| !e.1.is_stopped()),
                dead == (|e: (InstanceId, Instance)| e.1.is_stopped()),
                stopped@ == stopped0 + last_seen(st.take(p).filter(dead)),
                left == sum_left(outputs(s0, sounds@).take(p)),
                right == sum_right(outputs(s0, sounds@).take(p)),
                abs(left as int) <= p * OUT_BOUND,
                abs(right as int) <= p * OUT_BOUND,
            ensures
                p == s0.len(),
                self@ == st.take(p).filter(live),
            decreases s0.len() - p,
        {
            if i >= self.instances.len() {
                assert(s0.skip(p).len() == 0);
                assert(self@ =~= st.take(p).filter(live));
                break;
            }
            let ghost sel = st.take(p).filter(live);
            assert(self@[i as int] == s0[p]);
            let (id, mut inst) = self.instances[i];
            let ghost before = inst;
            let snd = sounds.get(inst.sound_id);
            assert(crate::instance::deref_opt(snd) == lookup(sounds@, before.sound_id));
            let f = inst.step(1, snd);
            let ghost outs = outputs(s0, sounds@);
            assert(outs.take(p + 1).drop_last() =~= outs.take(p));
            assert(outs[p] == f);
            assert(p * OUT_BOUND <= usize::MAX * OUT_BOUND) by (nonlinear_arith)
                requires p <= usize::MAX;
            left = left + f.left as i128;
            right = right + f.right as i128;
            assert(st[p] == (id, inst));
            assert(st.take(p + 1).drop_last() =~= st.take(p));
            proof {
                reveal(Seq::filter);
            }
            let ghost gone = st.take(p).filter(dead);
            if inst.is_stopped_exec() {
                self.instances.remove(i);
                stopped.push((id, inst.position));
                assert(st.take(p + 1).filter(live) == sel);
                assert(st.take(p + 1).filter(dead) == gone.push((id, inst)));
                assert(last_seen(gone.push((id, inst))) =~= last_seen(gone).push((id, inst.position)));
            } else {
                self.instances.set(i, (id, inst));
                i = i + 1;
                assert(st.take(p + 1).filter(live) == sel.push((id, inst)));
                assert(st.take(p + 1).filter(dead) == gone);
            }
            proof {
                p = p + 1;
                assert(self@ =~= st.take(p).filter(live) + s0.skip(p));
                assert forall|j: int| 0 <= j < self@.len() implies (#[trigger] self@[j]).1.wf() by {
                    if j < i {
                        assert(sel.contains(self@[j]) || self@[j] == (id, inst));
                    }
                }
            }
        }
        assert(outputs(s0, sounds@).take(p) =~= outputs(s0, sounds@));
        assert(st.take(p) =~= st);
        Frame {
            left: if left > i64::MAX as i128 {
                i64::MAX
            } else if left < i64::MIN as i128 {
                i64::MIN
            } else {
                left as i64
            },
            right: if right > i64::MAX as i128 {
                i64::MAX
            } else if right < i64::MIN as i128 {
                i64::MIN
            } else {
                right as i64
            },
        }
    }
}

} // verus!
