use vstd::prelude::*;
use crate::command::{Command, MetronomeCommand, SoundCommand};
use crate::metronome::{IntervalEvent, Metronome};
use crate::instance::{Instance, PlaybackState};
use crate::instance::InstanceId;
use crate::pool::{Instances, after_command, last_seen, outputs, saturate, stepped, sum_left, sum_right};
use crate::ring::{Receiver, Sender};
use crate::sequence::{CustomEvent, Sequence, SequenceOutputCommand};
use crate::sequences::{Sequences, emitted, to_command};
use crate::sound::{Frame, Sound};
use crate::store::Sounds;

verus! {

/// Either the sound under `key` left the store and went onto the return ring,
/// or nothing changed, which happens only when there is no such sound or
/// the ring has taken `capacity` items already.
pub open spec fn unloaded(
    old_sounds: Map<u64, Sound>,
    old_sent: Seq<Sound>,
    capacity: nat,
    key: u64,
    sounds: Map<u64, Sound>,
    sent: Seq<Sound>,
) -> bool {
    (old_sounds.contains_key(key) && sounds == old_sounds.remove(key) && sent == old_sent.push(old_sounds[key]))
        || (sounds == old_sounds && sent == old_sent && !(old_sounds.contains_key(key) && old_sent.len() < capacity))
}

/// The instances after the instance commands among `cmds`, in order.
pub open spec fn instances_after(s: Seq<(InstanceId, Instance)>, cmds: Seq<Command>) -> Seq<(InstanceId, Instance)>
    decreases cmds.len(),
{
    if cmds.len() == 0 {
        s
    } else {
        instance_step(instances_after(s, cmds.drop_last()), cmds.last())
    }
}

/// The instances after one command.
pub open spec fn instance_step(s: Seq<(InstanceId, Instance)>, c: Command) -> Seq<(InstanceId, Instance)> {
    match c {
        Command::Instance(c) => after_command(s, c),
        _ => s,
    }
}

/// The clock after one command.
pub open spec fn clock_step(k: Clock, c: Command) -> Clock {
    match c {
        Command::Metronome(c) => clock_command(k, c),
        _ => k,
    }
}

/// A metronome's position, running flag and tempo.
pub struct Clock {
    pub position: u64,
    pub running: bool,
    pub tempo_bpm: u64,
}

pub open spec fn clock_of(m: Metronome) -> Clock {
    Clock { position: m.position, running: m.running, tempo_bpm: m.tempo_bpm }
}

/// The clock after one metronome command.
pub open spec fn clock_command(k: Clock, c: MetronomeCommand) -> Clock {
    match c {
        MetronomeCommand::SetMetronomeTempo(t) => Clock { tempo_bpm: t, ..k },
        MetronomeCommand::StartMetronome => Clock { running: true, ..k },
        MetronomeCommand::PauseMetronome => Clock { running: false, ..k },
        MetronomeCommand::StopMetronome => Clock { running: false, position: 0, ..k },
    }
}

/// The clock after the metronome commands among `cmds`, in order.
pub open spec fn clock_after(k: Clock, cmds: Seq<Command>) -> Clock
    decreases cmds.len(),
{
    if cmds.len() == 0 {
        k
    } else {
        clock_step(clock_after(k, cmds.drop_last()), cmds.last())
    }
}

/// The clock after one frame: a running clock moves on by its tempo, unless
/// that would overflow its position.
pub open spec fn clock_tick(k: Clock) -> Clock {
    if k.running && k.position + k.tempo_bpm <= u64::MAX {
        Clock { position: (k.position + k.tempo_bpm) as u64, ..k }
    } else {
        k
    }
}

/// State and position of the first instance with id `id`.
pub open spec fn first_live(s: Seq<(InstanceId, Instance)>, id: InstanceId) -> Option<(PlaybackState, i64)>
    decreases s.len(),
{
    if s.len() == 0 {
        None
    } else if s[0].0 == id {
        Some((s[0].1.state, s[0].1.position))
    } else {
        first_live(s.drop_first(), id)
    }
}

/// Last recorded position of a dropped instance with id `id`.
pub open spec fn last_stopped(s: Seq<(InstanceId, i64)>, id: InstanceId) -> Option<i64>
    decreases s.len(),
{
    if s.len() == 0 {
        None
    } else if s.last().0 == id {
        Some(s.last().1)
    } else {
        last_stopped(s.drop_last(), id)
    }
}

/// Everything the audio thread owns, and the ends of the rings it uses.
pub struct Backend {
    pub sample_rate: u32,
    pub command_capacity: usize,
    pub sounds: Sounds,
    pub instances: Instances,
    pub metronome: Metronome,
    pub sequences: Sequences,
    pub command_consumer: Receiver<Command>,
    pub unused_sounds: Sender<Sound>,
    pub unused_sequences: Sender<Sequence>,
    /// Interval events of the metronome, for the client to observe.
    pub interval_events: Vec<IntervalEvent>,
    /// Custom events emitted, for the client to observe.
    pub custom_events: Vec<CustomEvent>,
    /// Sounds handed to the unused-sound ring so far.
    pub sounds_released: u64,
    pub command_queue: Vec<Command>,
    /// Instances that stopped and were dropped, with their last positions.
    pub stopped: Vec<(InstanceId, i64)>,
}

impl Backend {
    pub open spec fn wf(&self) -> bool {
        &&& self.sounds.wf()
        &&& self.instances.wf()
        &&& self.metronome.wf()
        &&& self.sequences.wf()
        &&& self.sequences.sequence_output_command_queue@.len() == 0
        &&& self.command_queue@.len() == 0
    }

    pub fn new(
        sample_rate: u32,
        command_capacity: usize,
        sound_capacity: usize,
        command_consumer: Receiver<Command>,
        unused_sounds: Sender<Sound>,
        unused_sequences: Sender<Sequence>,
    ) -> (r: Backend)
        requires
            sample_rate > 0,
        ensures
            r.wf(),
            r.sample_rate == sample_rate,
            r.command_capacity == command_capacity,
            r.sounds@.is_empty(),
            r.instances@.len() == 0,
            r.sequences@.len() == 0,
            r.metronome.position == 0,
            !r.metronome.running,
            r.interval_events@.len() == 0,
            r.custom_events@.len() == 0,
            r.sounds_released == 0,
            r.command_consumer.received() == command_consumer.received(),
            r.unused_sounds.sent() == unused_sounds.sent(),
            r.unused_sequences.sent() == unused_sequences.sent(),
            r.unused_sounds.capacity() == unused_sounds.capacity(),
            r.unused_sequences.capacity() == unused_sequences.capacity(),
    {
        Backend {
            sample_rate,
            command_capacity,
            sounds: Sounds::new(sound_capacity),
            instances: Instances::new(command_capacity),
            metronome: Metronome::new(120, sample_rate, Vec::new()),
            sequences: Sequences::new(command_capacity, command_capacity),
            command_consumer,
            unused_sounds,
            unused_sequences,
            interval_events: Vec::new(),
            custom_events: Vec::new(),
            sounds_released: 0,
            command_queue: Vec::with_capacity(command_capacity),
            stopped: Vec::new(),
        }
    }

    /// Replaces the metronome, for one with its own tempo and intervals.
    pub fn set_metronome(&mut self, metronome: Metronome)
        requires
            old(self).wf(),
            metronome.wf(),
        ensures
            final(self).wf(),
            final(self).metronome.tempo_bpm == metronome.tempo_bpm,
            final(self).metronome.position == metronome.position,
            final(self).metronome.running == metronome.running,
            final(self).metronome.intervals@ == metronome.intervals@,
            final(self).sample_rate == old(self).sample_rate,
            final(self).command_capacity == old(self).command_capacity,
    {
        self.metronome = metronome;
    }

    /// Sends a command to the one subsystem it is for.
    #[verifier::rlimit(40)]
    pub fn route(&mut self, command: Command)
        requires
            old(self).wf(),
        ensures
            final(self).wf(),
            final(self).sample_rate == old(self).sample_rate,
            final(self).command_capacity == old(self).command_capacity,
            final(self).command_consumer.received() == old(self).command_consumer.received(),
            final(self).unused_sounds.capacity() == old(self).unused_sounds.capacity(),
            final(self).unused_sequences.capacity() == old(self).unused_sequences.capacity(),
            final(self).stopped@ == old(self).stopped@,
            final(self).instances@ == instance_step(old(self).instances@, command),
            clock_of(final(self).metronome) == clock_step(clock_of(old(self).metronome), command),
            final(self).metronome.intervals@ == old(self).metronome.intervals@,
            !(command is Sequence) ==> final(self).sequences@ == old(self).sequences@,
            match command {
                Command::Sound(SoundCommand::LoadSound(id, s)) => s.wf() ==> final(self).sounds@
                    == old(self).sounds@.insert(id.index, s),
                Command::Sound(SoundCommand::UnloadSound(id)) => unloaded(
                    old(self).sounds@,
                    old(self).unused_sounds.sent(),
                    old(self).unused_sounds.capacity(),
                    id.index,
                    final(self).sounds@,
                    final(self).unused_sounds.sent(),
                ),
                Command::Instance(c) => final(self).instances@ == after_command(old(self).instances@, c)
                    && final(self).sounds@ == old(self).sounds@,
                Command::Metronome(c) => final(self).instances@ == old(self).instances@
                    && final(self).metronome.position == match c {
                        MetronomeCommand::StopMetronome => 0,
                        _ => old(self).metronome.position,
                    } && final(self).metronome.running == match c {
                        MetronomeCommand::StartMetronome => true,
                        MetronomeCommand::SetMetronomeTempo(_) => old(self).metronome.running,
                        _ => false,
                    } && final(self).metronome.tempo_bpm == match c {
                        MetronomeCommand::SetMetronomeTempo(t) => t,
                        _ => old(self).metronome.tempo_bpm,
                    },
                Command::Sequence(c) => final(self).instances@ == old(self).instances@,
                Command::EmitCustomEvent(e) => final(self).custom_events@ == old(
                    self,
                ).custom_events@.push(e),
            },
    {
        match command {
            Command::Sound(SoundCommand::LoadSound(id, s)) => {
                if s.frames.len() as u64 <= crate::sound::MAX_SOUND_FRAMES {
                    let ghost loaded = s;
                    self.sounds.load(id, s);
                    assert(self.sounds@ == old(self).sounds@.insert(id.index, loaded));
                } else {
                    assert(!s.wf());
                }
            },
            Command::Sound(SoundCommand::UnloadSound(id)) => {
                if self.sounds.unload(id, &mut self.unused_sounds) && self.sounds_released < u64::MAX {
                    self.sounds_released = self.sounds_released + 1;
                }
            },
            Command::Instance(c) => self.instances.run_command(c),
            Command::Metronome(c) => match c {
                MetronomeCommand::SetMetronomeTempo(t) => self.metronome.set_tempo(t),
                MetronomeCommand::StartMetronome => self.metronome.start(),
                MetronomeCommand::PauseMetronome => self.metronome.pause(),
                MetronomeCommand::StopMetronome => self.metronome.stop(),
            },
            Command::Sequence(c) => self.sequences.run_command(c, &self.metronome, self.sample_rate),
            Command::EmitCustomEvent(e) => self.custom_events.push(e),
        }
    }

    /// Produces one frame: applies the queued commands in the order they were
    /// sent, advances the metronome and the sequences (routing what they emit
    /// at once), then mixes every instance.
    pub fn process(&mut self) -> (out: Frame)
        requires
            old(self).wf(),
        ensures
            final(self).unused_sounds.capacity() == old(self).unused_sounds.capacity(),
            final(self).unused_sequences.capacity() == old(self).unused_sequences.capacity(),
            final(self).wf(),
            final(self).sample_rate == old(self).sample_rate,
            final(self).command_capacity == old(self).command_capacity,
            exists|d: Seq<Command>, q: Seq<Command>|
                #![trigger instances_after(instances_after(old(self).instances@, d), q)]
                d.len() <= old(self).command_capacity
                && final(self).command_consumer.received() == old(self).command_consumer.received() + d
                && clock_of(final(self).metronome) == clock_after(clock_tick(clock_after(clock_of(old(self).metronome), d)), q)
                && final(self).instances@ == stepped(
                    instances_after(instances_after(old(self).instances@, d), q),
                    final(self).sounds@,
                ).filter(|e: (InstanceId, Instance)| !e.1.is_stopped())
                && out.left == saturate(sum_left(outputs(instances_after(instances_after(old(self).instances@, d), q), final(self).sounds@)))
                && out.right == saturate(sum_right(outputs(instances_after(instances_after(old(self).instances@, d), q), final(self).sounds@)))
                && final(self).stopped@ == old(self).stopped@ + last_seen(stepped(
                    instances_after(instances_after(old(self).instances@, d), q),
                    final(self).sounds@,
                ).filter(|e: (InstanceId, Instance)| e.1.is_stopped()))
                && exists|seqs: Seq<(u64, Sequence)>|
                    #![trigger emitted(seqs, 1, clock_after(clock_of(old(self).metronome), d).tempo_bpm, old(self).sample_rate, clock_after(clock_of(old(self).metronome), d).position, clock_tick(clock_after(clock_of(old(self).metronome), d)).position)]
                    ((forall|k: int| 0 <= k < d.len() ==> !(#[trigger] d[k] is Sequence)) ==> seqs == old(self).sequences@)
                    && q == emitted(
                        seqs,
                        1,
                        clock_after(clock_of(old(self).metronome), d).tempo_bpm,
                        old(self).sample_rate,
                        clock_after(clock_of(old(self).metronome), d).position,
                        clock_tick(clock_after(clock_of(old(self).metronome), d)).position,
                    ).map_values(|c: SequenceOutputCommand| to_command(c)),
    {
        let ghost r0 = self.command_consumer.received();
        let ghost mut d: Seq<Command> = seq![];
        let mut n: usize = 0;
        while n < self.command_capacity
            invariant
                self.wf(),
                self.command_capacity == old(self).command_capacity,
                self.sample_rate == old(self).sample_rate,
                n == d.len(),
                n <= self.command_capacity,
                self.command_consumer.received() == r0 + d,
                self.instances@ == instances_after(old(self).instances@, d),
                self.unused_sounds.capacity() == old(self).unused_sounds.capacity(),
                self.unused_sequences.capacity() == old(self).unused_sequences.capacity(),
                self.stopped@ == old(self).stopped@,
                clock_of(self.metronome) == clock_after(clock_of(old(self).metronome), d),
                (forall|k: int| 0 <= k < d.len() ==> !(#[trigger] d[k] is Sequence)) ==> self.sequences@ == old(self).sequences@,
            ensures
                self.wf(),
                self.command_capacity == old(self).command_capacity,
                self.sample_rate == old(self).sample_rate,
                d.len() <= self.command_capacity,
                self.command_consumer.received() == r0 + d,
                self.instances@ == instances_after(old(self).instances@, d),
                self.unused_sounds.capacity() == old(self).unused_sounds.capacity(),
                self.unused_sequences.capacity() == old(self).unused_sequences.capacity(),
                self.stopped@ == old(self).stopped@,
                clock_of(self.metronome) == clock_after(clock_of(old(self).metronome), d),
                (forall|k: int| 0 <= k < d.len() ==> !(#[trigger] d[k] is Sequence)) ==> self.sequences@ == old(self).sequences@,
            decreases self.command_capacity - n,
        {
            match self.command_consumer.recv() {
                Some(c) => {
                    let ghost cc = c;
                    self.route(c);
                    proof {
                        let d1 = d.push(cc);
                        assert(d1.drop_last() =~= d);
                        assert(d1.last() == cc);
                        assert(forall|k: int| 0 <= k < d.len() ==> d1[k] == d[k]);
                        assert(r0 + d1 =~= (r0 + d).push(cc));
                        d = d1;
                    }
                },
                None => break,
            }
            n = n + 1;
        }
        let ghost mid = self.instances@;
        let ghost seqs = self.sequences@;
        let ghost clock_mid = clock_tick(clock_of(self.metronome));
        let prev = self.metronome.position;
        if self.metronome.position as u128 + self.metronome.tempo_bpm as u128 <= u64::MAX as u128 {
            self.metronome.tick(1, &mut self.interval_events);
        }
        let new = self.metronome.position;
        let mut queue = Vec::new();
        std::mem::swap(&mut queue, &mut self.command_queue);
        self.sequences.update(
            1,
            self.metronome.tempo_bpm,
            self.sample_rate,
            prev,
            new,
            &mut self.unused_sequences,
            &mut queue,
        );
        assert(clock_of(self.metronome) == clock_mid);
        let ghost q = queue@;
        assert(q =~= emitted(seqs, 1, clock_mid.tempo_bpm, self.sample_rate, clock_after(clock_of(old(self).metronome), d).position, clock_mid.position).map_values(|c: SequenceOutputCommand| to_command(c)));
        let ghost mut j: int = 0;
        while 0 < queue.len()
            invariant
                self.wf(),
                self.command_capacity == old(self).command_capacity,
                self.sample_rate == old(self).sample_rate,
                self.command_consumer.received() == r0 + d,
                self.unused_sounds.capacity() == old(self).unused_sounds.capacity(),
                self.unused_sequences.capacity() == old(self).unused_sequences.capacity(),
                self.stopped@ == old(self).stopped@,
                0 <= j <= q.len(),
                queue@ == q.skip(j),
                self.instances@ == instances_after(mid, q.take(j)),
                clock_of(self.metronome) == clock_after(clock_mid, q.take(j)),
            decreases queue.len(),
        {
            let c = queue.remove(0);
            let ghost cc = c;
            self.route(c);
            proof {
                assert(q[j] == cc);
                assert(q.take(j + 1).drop_last() =~= q.take(j));
                assert(q.take(j + 1).last() == cc);
                j = j + 1;
                assert(queue@ =~= q.skip(j));
            }
        }
        assert(q.take(j) =~= q);
        self.command_queue = queue;
        let ghost stopped_before = self.stopped@;
        let out = self.instances.process(&self.sounds, &mut self.stopped);
        assert(instances_after(instances_after(old(self).instances@, d), q) == instances_after(mid, q));
        out
    }

    /// What a handle shows of instance `id`: the state and position of the
    /// first live instance with that id; else, if one stopped and was dropped,
    /// stopped at the last position recorded; else nothing.
    pub open spec fn snapshot_spec(&self, id: InstanceId) -> Option<(PlaybackState, i64)> {
        match first_live(self.instances@, id) {
            Some(x) => Some(x),
            None => match last_stopped(self.stopped@, id) {
                Some(pos) => Some((PlaybackState::Stopped, pos)),
                None => None,
            },
        }
    }

    /// What a handle shows of instance `id`, as of the last frame.
    pub fn snapshot(&self, id: InstanceId) -> (r: Option<(PlaybackState, i64)>)
        ensures
            r == self.snapshot_spec(id),
    {
        let ghost live = self.instances@;
        assert(live.skip(0) =~= live);
        let mut i: usize = 0;
        while i < self.instances.instances.len()
            invariant
                0 <= i <= live.len(),
                live == self.instances@,
                first_live(live, id) == first_live(live.skip(i as int), id),
            decreases live.len() - i,
        {
            let (k, inst) = self.instances.instances[i];
            assert(live.skip(i as int)[0] == live[i as int]);
            assert(live.skip(i as int).drop_first() =~= live.skip(i + 1));
            if k == id {
                return Some((inst.state, inst.position));
            }
            i = i + 1;
        }
        assert(live.skip(i as int).len() == 0);
        let ghost gone = self.stopped@;
        let mut n: usize = self.stopped.len();
        assert(gone.take(n as int) =~= gone);
        while n > 0
            invariant
                0 <= n <= gone.len(),
                gone == self.stopped@,
                first_live(live, id) is None,
                live == self.instances@,
                last_stopped(gone, id) == last_stopped(gone.take(n as int), id),
            decreases n,
        {
            let (k, pos) = self.stopped[n - 1];
            assert(gone.take(n as int).last() == gone[n - 1]);
            assert(gone.take(n as int).drop_last() =~= gone.take(n - 1));
            if k == id {
                assert(last_stopped(gone.take(n as int), id) == Some(pos));
                return Some((PlaybackState::Stopped, pos));
            }
            n = n - 1;
        }
        None
    }
}

} // verus!
