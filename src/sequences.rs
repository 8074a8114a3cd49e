use vstd::prelude::*;
use indexmap::IndexMap;
use crate::command::{Command, InstanceCommand, MetronomeCommand};
use crate::ring::Sender;
use crate::instance::{InstanceId, InstanceSettings};
use crate::command::SequenceCommand;
use crate::metronome::Metronome;
use crate::sequence::{Duration, LoopSettings, Sequence, SequenceOutputCommand, SequenceState, SequenceStep, frames_of};
use crate::sound::SoundId;
use crate::tween::ONE;

verus! {

#[verifier::external_type_specification]
#[verifier::external_body]
#[verifier::reject_recursive_types(K)]
#[verifier::reject_recursive_types(V)]
#[verifier::reject_recursive_types(S)]
pub struct ExIndexMap<K, V, S>(IndexMap<K, V, S>);

/// The entries of a sequence map, keyed by sequence index, in their order.
pub uninterp spec fn entries(m: IndexMap<u64, Sequence>) -> Seq<(u64, Sequence)>;

/// No key occurs twice.
pub open spec fn keys_unique(s: Seq<(u64, Sequence)>) -> bool {
    forall|i: int, j: int| 0 <= i < j < s.len() ==> s[i].0 != s[j].0
}

pub open spec fn has_key(s: Seq<(u64, Sequence)>, key: u64) -> bool {
    exists|i: int| 0 <= i < s.len() && s[i].0 == key
}

/// Relies on `IndexMap::with_capacity`: an empty map.
#[verifier::external_body]
fn map_with_capacity(n: usize) -> (m: IndexMap<u64, Sequence>)
    ensures
        entries(m) == Seq::<(u64, Sequence)>::empty(),
{
    IndexMap::with_capacity(n)
}

/// Relies on `IndexMap::len`: the number of entries.
#[verifier::external_body]
fn map_len(m: &IndexMap<u64, Sequence>) -> (r: usize)
    ensures
        r == entries(*m).len(),
{
    m.len()
}

/// Relies on `IndexMap::get_index_of`: where the key stands, if present.
#[verifier::external_body]
fn map_index_of(m: &IndexMap<u64, Sequence>, key: u64) -> (r: Option<usize>)
    ensures
        match r {
            Some(i) => i < entries(*m).len() && entries(*m)[i as int].0 == key,
            None => !has_key(entries(*m), key),
        },
{
    m.get_index_of(&key)
}

/// Relies on `IndexMap::insert`: a present key keeps its place and takes the
/// new value; a new key goes last.
#[verifier::external_body]
fn map_insert(m: &mut IndexMap<u64, Sequence>, key: u64, value: Sequence)
    ensures
        keys_unique(entries(*final(m))),
        !has_key(entries(*old(m)), key) ==> entries(*final(m)) == entries(*old(m)).push((key, value)),
        forall|i: int|
            0 <= i < entries(*old(m)).len() && entries(*old(m))[i].0 == key ==> entries(*final(m))
                == entries(*old(m)).update(i, (key, value)),
{
    m.insert(key, value);
}

/// Relies on `IndexMap::shift_remove_index`: takes out the entry at `i`,
/// shifting the later ones down.
#[verifier::external_body]
fn map_remove_at(m: &mut IndexMap<u64, Sequence>, i: usize) -> (r: (u64, Sequence))
    requires
        i < entries(*old(m)).len(),
    ensures
        r == entries(*old(m))[i as int],
        entries(*final(m)) == entries(*old(m)).remove(i as int),
        keys_unique(entries(*final(m))),
{
    m.shift_remove_index(i).unwrap()
}

/// Relies on `IndexMap::shift_insert`: puts a new key at `i`, shifting the
/// later entries up; it panics beyond the end.
#[verifier::external_body]
fn map_insert_at(m: &mut IndexMap<u64, Sequence>, i: usize, key: u64, value: Sequence)
    requires
        i <= entries(*old(m)).len(),
        !has_key(entries(*old(m)), key),
    ensures
        entries(*final(m)) == entries(*old(m)).insert(i as int, (key, value)),
        keys_unique(entries(*final(m))),
{
    m.shift_insert(i, key, value);
}

/// `new` is `old` with `key` set to `value`: in place if present, else last.
pub open spec fn inserted(old: Seq<(u64, Sequence)>, key: u64, value: Sequence, new: Seq<(u64, Sequence)>) -> bool {
    &&& !has_key(old, key) ==> new == old.push((key, value))
    &&& forall|i: int| 0 <= i < old.len() && old[i].0 == key ==> new == old.update(i, (key, value))
}

/// A change made to one running sequence.
#[derive(Clone, Copy, Debug, PartialEq, Eq, Structural)]
pub enum SequenceChange {
    Mute,
    Unmute,
    Pause,
    Resume,
    Stop,
}

pub open spec fn change_spec(s: Sequence, c: SequenceChange) -> Sequence {
    match c {
        SequenceChange::Mute => Sequence { muted: true, ..s },
        SequenceChange::Unmute => Sequence { muted: false, ..s },
        SequenceChange::Pause => if s.state == SequenceState::Playing {
            Sequence { state: SequenceState::Paused, ..s }
        } else {
            s
        },
        SequenceChange::Resume => if s.state == SequenceState::Paused {
            Sequence { state: SequenceState::Playing, ..s }
        } else {
            s
        },
        SequenceChange::Stop => Sequence { state: SequenceState::Finished, ..s },
    }
}

/// `new` is `old` with the change made to the sequence under `key`, if any.
pub open spec fn changed(old: Seq<(u64, Sequence)>, key: u64, c: SequenceChange, new: Seq<(u64, Sequence)>) -> bool {
    &&& !has_key(old, key) ==> new == old
    &&& forall|i: int| 0 <= i < old.len() && old[i].0 == key ==> new == old.update(i, (key, change_spec(old[i].1, c)))
}

/// Whole frames in a position given in millionths of a frame; none before zero.
pub open spec fn position_frames(p: i64) -> u64 {
    if p <= 0 {
        0
    } else {
        (p / ONE) as u64
    }
}

/// Position in millionths of a frame of `f` frames, capped at `i64::MAX`.
pub open spec fn frames_position(f: u64) -> i64 {
    if f > i64::MAX / ONE {
        i64::MAX
    } else {
        (f * ONE) as i64
    }
}

pub open spec fn sat_sub(a: u64, b: u64) -> u64 {
    if a > b {
        (a - b) as u64
    } else {
        0
    }
}

/// The timeline that loops a sound: play once from the given position, wait
/// until the loop end, then repeat playing from the loop start and waiting
/// for the loop's length. Beats are read at the sound's authored tempo if it
/// has one, else at `metronome_tempo`.
pub open spec fn loop_steps(
    sound_id: SoundId,
    instance_id: InstanceId,
    loop_settings: LoopSettings,
    settings: InstanceSettings,
    metronome_tempo: u64,
    sample_rate: u32,
) -> Seq<SequenceStep> {
    let tempo = match sound_id.tempo {
        Some(t) => t,
        None => metronome_tempo,
    };
    let duration = match sound_id.semantic_duration {
        Some(b) => Duration::Beats(b),
        None => Duration::Frames(sound_id.duration),
    };
    let start = frames_of(
        match loop_settings.start {
            Some(d) => d,
            None => Duration::Frames(0),
        },
        tempo,
        sample_rate,
    );
    let end = frames_of(
        match loop_settings.end {
            Some(d) => d,
            None => duration,
        },
        tempo,
        sample_rate,
    );
    seq![
        SequenceStep::Output(SequenceOutputCommand::PlaySound(sound_id, instance_id, settings)),
        SequenceStep::Wait(Duration::Frames(sat_sub(end, position_frames(settings.position)))),
        SequenceStep::StartLoop,
        SequenceStep::Output(SequenceOutputCommand::PlaySound(
            sound_id,
            instance_id,
            InstanceSettings { position: frames_position(start), ..settings },
        )),
        SequenceStep::Wait(Duration::Frames(sat_sub(end, start))),
    ]
}

/// Removing the entry at `i` from entries with unique keys leaves no entry
/// with that key.
proof fn lemma_removed_key_gone(before: Seq<(u64, Sequence)>, i: int)
    requires
        keys_unique(before),
        0 <= i < before.len(),
    ensures
        !has_key(before.remove(i), before[i].0),
{
    let after = before.remove(i);
    let key = before[i].0;
    if has_key(after, key) {
        let j = choose|j: int| 0 <= j < after.len() && after[j].0 == key;
        if j < i {
            assert(before[j].0 == key);
        } else {
            assert(before[j + 1].0 == key);
        }
    }
}

/// Every sequence after one tick.
pub open spec fn ticked(s: Seq<(u64, Sequence)>, dt: u64, tempo: u64, sample_rate: u32, prev: u64, new: u64) -> Seq<(u64, Sequence)> {
    s.map_values(|e: (u64, Sequence)| (e.0, e.1.tick_spec(dt, tempo, sample_rate, prev, new).0))
}

/// What the sequences emit in one tick, in their order.
pub open spec fn emitted(s: Seq<(u64, Sequence)>, dt: u64, tempo: u64, sample_rate: u32, prev: u64, new: u64) -> Seq<SequenceOutputCommand>
    decreases s.len(),
{
    if s.len() == 0 {
        seq![]
    } else {
        emitted(s.drop_last(), dt, tempo, sample_rate, prev, new) + s.last().1.tick_spec(dt, tempo, sample_rate, prev, new).1
    }
}

/// The entries of `s` whose flag in `keep` is set, in order.
pub open spec fn select(s: Seq<(u64, Sequence)>, keep: Seq<bool>) -> Seq<(u64, Sequence)>
    decreases s.len(),
{
    if s.len() == 0 || keep.len() == 0 {
        seq![]
    } else {
        select(s.drop_last(), keep.drop_last()) + if keep.last() {
            seq![s.last()]
        } else {
            seq![]
        }
    }
}

/// The sequences of some entries, in order.
pub open spec fn values(s: Seq<(u64, Sequence)>) -> Seq<Sequence> {
    s.map_values(|e: (u64, Sequence)| e.1)
}

/// Each flag of `keep` negated.
pub open spec fn flipped(keep: Seq<bool>) -> Seq<bool> {
    keep.map_values(|b: bool| !b)
}

/// The engine command a sequence output stands for.
pub open spec fn to_command(c: SequenceOutputCommand) -> Command {
    match c {
        SequenceOutputCommand::PlaySound(s, i, st) => Command::Instance(InstanceCommand::PlaySound(s, i, st)),
        SequenceOutputCommand::SetInstanceVolume(i, v, t) => Command::Instance(InstanceCommand::SetInstanceVolume(i, v, t)),
        SequenceOutputCommand::SetInstancePitch(i, v, t) => Command::Instance(InstanceCommand::SetInstancePitch(i, v, t)),
        SequenceOutputCommand::PauseInstance(i, t) => Command::Instance(InstanceCommand::PauseInstance(i, t)),
        SequenceOutputCommand::ResumeInstance(i, t) => Command::Instance(InstanceCommand::ResumeInstance(i, t)),
        SequenceOutputCommand::StopInstance(i, t) => Command::Instance(InstanceCommand::StopInstance(i, t)),
        SequenceOutputCommand::PauseInstancesOfSound(s, t) => Command::Instance(InstanceCommand::PauseInstancesOfSound(s, t)),
        SequenceOutputCommand::ResumeInstancesOfSound(s, t) => Command::Instance(InstanceCommand::ResumeInstancesOfSound(s, t)),
        SequenceOutputCommand::StopInstancesOfSound(s, t) => Command::Instance(InstanceCommand::StopInstancesOfSound(s, t)),
        SequenceOutputCommand::SetMetronomeTempo(t) => Command::Metronome(MetronomeCommand::SetMetronomeTempo(t)),
        SequenceOutputCommand::StartMetronome => Command::Metronome(MetronomeCommand::StartMetronome),
        SequenceOutputCommand::PauseMetronome => Command::Metronome(MetronomeCommand::PauseMetronome),
        SequenceOutputCommand::StopMetronome => Command::Metronome(MetronomeCommand::StopMetronome),
        SequenceOutputCommand::EmitCustomEvent(e) => Command::EmitCustomEvent(e),
    }
}

pub fn output_to_command(c: SequenceOutputCommand) -> (r: Command)
    ensures
        r == to_command(c),
{
    match c {
        SequenceOutputCommand::PlaySound(s, i, st) => Command::Instance(InstanceCommand::PlaySound(s, i, st)),
        SequenceOutputCommand::SetInstanceVolume(i, v, t) => Command::Instance(InstanceCommand::SetInstanceVolume(i, v, t)),
        SequenceOutputCommand::SetInstancePitch(i, v, t) => Command::Instance(InstanceCommand::SetInstancePitch(i, v, t)),
        SequenceOutputCommand::PauseInstance(i, t) => Command::Instance(InstanceCommand::PauseInstance(i, t)),
        SequenceOutputCommand::ResumeInstance(i, t) => Command::Instance(InstanceCommand::ResumeInstance(i, t)),
        SequenceOutputCommand::StopInstance(i, t) => Command::Instance(InstanceCommand::StopInstance(i, t)),
        SequenceOutputCommand::PauseInstancesOfSound(s, t) => Command::Instance(InstanceCommand::PauseInstancesOfSound(s, t)),
        SequenceOutputCommand::ResumeInstancesOfSound(s, t) => Command::Instance(InstanceCommand::ResumeInstancesOfSound(s, t)),
        SequenceOutputCommand::StopInstancesOfSound(s, t) => Command::Instance(InstanceCommand::StopInstancesOfSound(s, t)),
        SequenceOutputCommand::SetMetronomeTempo(t) => Command::Metronome(MetronomeCommand::SetMetronomeTempo(t)),
        SequenceOutputCommand::StartMetronome => Command::Metronome(MetronomeCommand::StartMetronome),
        SequenceOutputCommand::PauseMetronome => Command::Metronome(MetronomeCommand::PauseMetronome),
        SequenceOutputCommand::StopMetronome => Command::Metronome(MetronomeCommand::StopMetronome),
        SequenceOutputCommand::EmitCustomEvent(e) => Command::EmitCustomEvent(e),
    }
}

/// All running sequences, in the order they were started.
pub struct Sequences {
    pub sequences: IndexMap<u64, Sequence>,
    pub sequence_output_command_queue: Vec<SequenceOutputCommand>,
}

impl Sequences {
    pub open spec fn view(&self) -> Seq<(u64, Sequence)> {
        entries(self.sequences)
    }

    pub open spec fn wf(&self) -> bool {
        &&& keys_unique(self@)
        &&& self.sequence_output_command_queue@.len() == 0
    }

    pub fn new(sequence_capacity: usize, command_capacity: usize) -> (r: Sequences)
        ensures
            r.wf(),
            r@ == Seq::<(u64, Sequence)>::empty(),
            r.sequence_output_command_queue@ == Seq::<SequenceOutputCommand>::empty(),
    {
        Sequences {
            sequences: map_with_capacity(sequence_capacity),
            sequence_output_command_queue: Vec::with_capacity(command_capacity),
        }
    }

    fn start_sequence(&mut self, key: u64, sequence: Sequence)
        requires
            old(self).wf(),
        ensures
            final(self).wf(),
            inserted(old(self)@, key, sequence.started(), final(self)@),
            final(self).sequence_output_command_queue@ == old(self).sequence_output_command_queue@,
    {
        let mut sequence = sequence;
        sequence.start();
        map_insert(&mut self.sequences, key, sequence);
    }

    fn change(&mut self, key: u64, c: SequenceChange)
        requires
            old(self).wf(),
        ensures
            final(self).wf(),
            changed(old(self)@, key, c, final(self)@),
            final(self).sequence_output_command_queue@ == old(self).sequence_output_command_queue@,
    {
        match map_index_of(&self.sequences, key) {
            None => {},
            Some(i) => {
                let ghost before = self@;
                let (k, mut s) = map_remove_at(&mut self.sequences, i);
                proof {
                    lemma_removed_key_gone(before, i as int);
                }
                match c {
                    SequenceChange::Mute => s.mute(),
                    SequenceChange::Unmute => s.unmute(),
                    SequenceChange::Pause => s.pause(),
                    SequenceChange::Resume => s.resume(),
                    SequenceChange::Stop => s.stop(),
                }
                map_insert_at(&mut self.sequences, i, k, s);
                assert(self@ =~= before.update(i as int, (key, change_spec(before[i as int].1, c))));
            },
        }
    }

    /// Carries out a command addressed to the sequences: starting one (a loop
    /// of a sound is a sequence built for it) or changing the one under an id;
    /// ids that name no sequence are ignored.
    pub fn run_command(&mut self, command: SequenceCommand, metronome: &Metronome, sample_rate: u32)
        requires
            old(self).wf(),
        ensures
            final(self).wf(),
            final(self).sequence_output_command_queue@ == old(self).sequence_output_command_queue@,
            match command {
                SequenceCommand::StartSequence(id, s) => inserted(old(self)@, id.index, s.started(), final(self)@),
                SequenceCommand::LoopSound(id, sound_id, instance_id, loop_settings, settings) => exists|s: Sequence|
                    #![trigger inserted(old(self)@, id.index, s, final(self)@)]
                    s.steps@ == loop_steps(sound_id, instance_id, loop_settings, settings, metronome.tempo_bpm, sample_rate)
                    && s.pc == 0 && !s.muted && s.state == SequenceState::Playing && s.wait_timer == 0
                    && s.loop_anchor is None && inserted(old(self)@, id.index, s, final(self)@),
                SequenceCommand::MuteSequence(id) => changed(old(self)@, id.index, SequenceChange::Mute, final(self)@),
                SequenceCommand::UnmuteSequence(id) => changed(old(self)@, id.index, SequenceChange::Unmute, final(self)@),
                SequenceCommand::PauseSequence(id) => changed(old(self)@, id.index, SequenceChange::Pause, final(self)@),
                SequenceCommand::ResumeSequence(id) => changed(old(self)@, id.index, SequenceChange::Resume, final(self)@),
                SequenceCommand::StopSequence(id) => changed(old(self)@, id.index, SequenceChange::Stop, final(self)@),
            },
    {
        match command {
            SequenceCommand::StartSequence(id, sequence) => {
                self.start_sequence(id.index, sequence);
            },
            SequenceCommand::LoopSound(id, sound_id, instance_id, loop_settings, settings) => {
                let tempo = match sound_id.tempo {
                    Some(t) => t,
                    None => metronome.tempo_bpm,
                };
                let duration = match sound_id.semantic_duration {
                    Some(b) => Duration::Beats(b),
                    None => Duration::Frames(sound_id.duration),
                };
                let start = match loop_settings.start {
                    Some(d) => d,
                    None => Duration::Frames(0),
                }.in_frames(tempo, sample_rate);
                let end = match loop_settings.end {
                    Some(d) => d,
                    None => duration,
                }.in_frames(tempo, sample_rate);
                let first = if settings.position <= 0 {
                    0
                } else {
                    (settings.position / ONE) as u64
                };
                let start_position: i64 = if start > (i64::MAX / ONE) as u64 {
                    i64::MAX
                } else {
                    (start as i64) * ONE
                };
                let mut sequence = Sequence::new();
                sequence.play_sound(sound_id, instance_id, settings);
                sequence.wait(Duration::Frames(if end > first { end - first } else { 0 }));
                sequence.start_loop();
                sequence.play_sound(
                    sound_id,
                    instance_id,
                    InstanceSettings { position: start_position, ..settings },
                );
                sequence.wait(Duration::Frames(if end > start { end - start } else { 0 }));
                let ghost built = sequence;
                assert(built.steps@ =~= loop_steps(sound_id, instance_id, loop_settings, settings, metronome.tempo_bpm, sample_rate));
                self.start_sequence(id.index, sequence);
                assert(inserted(old(self)@, id.index, built.started(), self@));
            },
            SequenceCommand::MuteSequence(id) => self.change(id.index, SequenceChange::Mute),
            SequenceCommand::UnmuteSequence(id) => self.change(id.index, SequenceChange::Unmute),
            SequenceCommand::PauseSequence(id) => self.change(id.index, SequenceChange::Pause),
            SequenceCommand::ResumeSequence(id) => self.change(id.index, SequenceChange::Resume),
            SequenceCommand::StopSequence(id) => self.change(id.index, SequenceChange::Stop),
        }
    }

    /// Ticks every sequence by `dt` frames, while the metronome moved from
    /// `prev` to `new` at `tempo`. Finished sequences are handed to
    /// `unload`; one the ring has no room for stays, to be handed over on a
    /// later tick. What the sequences emitted is appended to `out`, in their
    /// order, as engine commands.
    pub fn update(
        &mut self,
        dt: u64,
        tempo: u64,
        sample_rate: u32,
        prev: u64,
        new: u64,
        unload: &mut Sender<Sequence>,
        out: &mut Vec<Command>,
    )
        requires
            old(self).wf(),
        ensures
            final(unload).capacity() == old(unload).capacity(),
            final(self).wf(),
            final(out)@ == old(out)@ + emitted(old(self)@, dt, tempo, sample_rate, prev, new).map_values(
                |c: SequenceOutputCommand| to_command(c),
            ),
            exists|keep: Seq<bool>|
                #![trigger select(ticked(old(self)@, dt, tempo, sample_rate, prev, new), keep)]
                #![trigger flipped(keep)]
                keep.len() == old(self)@.len() && (forall|j: int|
                    0 <= j < keep.len() && ticked(old(self)@, dt, tempo, sample_rate, prev, new)[j].1.state
                        != SequenceState::Finished ==> keep[j]) && final(self)@ == select(
                    ticked(old(self)@, dt, tempo, sample_rate, prev, new),
                    keep,
                ) && (old(unload).sent().len() + old(self)@.len() <= old(unload).capacity() ==> forall|j: int|
                    0 <= j < keep.len() && ticked(old(self)@, dt, tempo, sample_rate, prev, new)[j].1.state
                        == SequenceState::Finished ==> !keep[j]) && final(unload).sent() == old(unload).sent() + values(select(
                    ticked(old(self)@, dt, tempo, sample_rate, prev, new),
                    flipped(keep),
                )),
    {
        let ghost e0 = self@;
        let ghost sent0 = unload.sent();
        let ghost cap0 = unload.capacity();
        let ghost tk = ticked(e0, dt, tempo, sample_rate, prev, new);
        let ghost mut keep: Seq<bool> = seq![];
        let ghost mut p: int = 0;
        let mut i: usize = 0;
        loop
            invariant
                0 <= p <= e0.len(),
                keep.len() == p,
                keys_unique(self@),
                tk == ticked(e0, dt, tempo, sample_rate, prev, new),
                self@ == select(tk.take(p), keep) + e0.skip(p),
                i == select(tk.take(p), keep).len(),
                self.sequence_output_command_queue@ == emitted(e0.take(p), dt, tempo, sample_rate, prev, new),
                forall|j: int| 0 <= j < p && tk[j].1.state != SequenceState::Finished ==> keep[j],
                unload.sent() == sent0 + values(select(tk.take(p), flipped(keep))),
                unload.capacity() == cap0,
                unload.sent().len() <= sent0.len() + p,
                sent0.len() + e0.len() <= cap0 ==> forall|j: int| 0 <= j < p && tk[j].1.state == SequenceState::Finished ==> !keep[j],
            ensures
                unload.capacity() == cap0,
                sent0.len() + e0.len() <= cap0 ==> forall|j: int| 0 <= j < p && tk[j].1.state == SequenceState::Finished ==> !keep[j],
                unload.sent() == sent0 + values(select(tk.take(p), flipped(keep))),
                p == e0.len(),
                keep.len() == p,
                keys_unique(self@),
                self@ == select(tk.take(p), keep) + e0.skip(p),
                self.sequence_output_command_queue@ == emitted(e0.take(p), dt, tempo, sample_rate, prev, new),
                forall|j: int| 0 <= j < p && tk[j].1.state != SequenceState::Finished ==> keep[j],
            decreases e0.len() - p,
        {
            let len = map_len(&self.sequences);
            if i >= len {
                assert(e0.skip(p).len() == 0);
                break;
            }
            let ghost before = self@;
            let ghost sel = select(tk.take(p), keep);
            assert(before[i as int] == e0[p]);
            let (k, mut s) = map_remove_at(&mut self.sequences, i);
            proof {
                lemma_removed_key_gone(before, i as int);
            }
            let ghost q = self.sequence_output_command_queue@;
            s.tick(dt, tempo, sample_rate, prev, new, &mut self.sequence_output_command_queue);
            assert(tk.take(p + 1).drop_last() =~= tk.take(p));
            assert(tk[p] == (k, s));
            assert(e0.take(p + 1).drop_last() =~= e0.take(p));
            assert(self.sequence_output_command_queue@ =~= emitted(e0.take(p + 1), dt, tempo, sample_rate, prev, new));
            let ghost kept: bool;
            let ghost keep0 = keep;
            let ghost sent_before = unload.sent();
            let ghost dropped = select(tk.take(p), flipped(keep));
            if s.finished() {
                match unload.send(s) {
                    Ok(()) => {
                        proof {
                            kept = false;
                        }
                    },
                    Err(back) => {
                        map_insert_at(&mut self.sequences, i, k, back);
                        i = i + 1;
                        proof {
                            kept = true;
                        }
                    },
                }
            } else {
                map_insert_at(&mut self.sequences, i, k, s);
                i = i + 1;
                proof {
                    kept = true;
                }
            }
            proof {
                keep = keep.push(kept);
                p = p + 1;
                assert(keep.drop_last() =~= keep0);
                assert(flipped(keep).drop_last() =~= flipped(keep0));
                assert(flipped(keep).last() == !kept);
                assert(select(tk.take(p), flipped(keep)) == dropped + if !kept {
                    seq![tk[p - 1]]
                } else {
                    seq![]
                });
                if !kept {
                    assert(values(select(tk.take(p), flipped(keep))) =~= values(dropped).push(tk[p - 1].1));
                } else {
                    assert(values(select(tk.take(p), flipped(keep))) =~= values(dropped));
                }
                assert(unload.sent() =~= sent0 + values(select(tk.take(p), flipped(keep))));
                assert(tk.take(p).drop_last() =~= tk.take(p - 1));
                assert(tk.take(p).last() == tk[p - 1]);
                assert(select(tk.take(p), keep) == sel + if kept {
                    seq![tk[p - 1]]
                } else {
                    seq![]
                });
                assert(self@ =~= select(tk.take(p), keep) + e0.skip(p));
            }
        }
        proof {
            assert(e0.take(p) =~= e0);
            assert(tk.take(p) =~= tk);
        }
        let mut j: usize = 0;
        let ghost out0 = out@;
        let ghost em = self.sequence_output_command_queue@;
        while j < self.sequence_output_command_queue.len()
            invariant
                0 <= j <= em.len(),
                self.sequence_output_command_queue@ == em,
                out@ == out0 + em.take(j as int).map_values(|c: SequenceOutputCommand| to_command(c)),
            decreases em.len() - j,
        {
            let c = self.sequence_output_command_queue[j];
            out.push(output_to_command(c));
            j = j + 1;
            assert(em.take(j as int).map_values(|c: SequenceOutputCommand| to_command(c)) =~= em.take(j - 1).map_values(|c: SequenceOutputCommand| to_command(c)).push(to_command(c)));
        }
        assert(em.take(j as int) =~= em);
        self.sequence_output_command_queue.clear();
    }
}

} // verus!
