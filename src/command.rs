use vstd::prelude::*;
use crate::instance::{InstanceId, InstanceSettings};
use crate::sequence::{CustomEvent, LoopSettings, Sequence, SequenceId};
use crate::sound::{Sound, SoundId};
use crate::tween::Tween;

verus! {

pub enum SoundCommand {
    LoadSound(SoundId, Sound),
    UnloadSound(SoundId),
}

#[derive(Clone, Copy, Debug, PartialEq, Eq, Structural)]
pub enum InstanceCommand {
    PlaySound(SoundId, InstanceId, InstanceSettings),
    SetInstanceVolume(InstanceId, i64, Option<Tween>),
    SetInstancePitch(InstanceId, i64, Option<Tween>),
    SetInstancePanning(InstanceId, i64, Option<Tween>),
    SeekInstanceTo(InstanceId, i64),
    SeekInstanceBy(InstanceId, i64),
    PauseInstance(InstanceId, Option<Tween>),
    ResumeInstance(InstanceId, Option<Tween>),
    StopInstance(InstanceId, Option<Tween>),
    PauseInstancesOfSound(SoundId, Option<Tween>),
    ResumeInstancesOfSound(SoundId, Option<Tween>),
    StopInstancesOfSound(SoundId, Option<Tween>),
}

#[derive(Clone, Copy, Debug, PartialEq, Eq, Structural)]
pub enum MetronomeCommand {
    /// New tempo in beats per minute.
    SetMetronomeTempo(u64),
    StartMetronome,
    PauseMetronome,
    StopMetronome,
}

pub enum SequenceCommand {
    StartSequence(SequenceId, Sequence),
    /// Loops a sound; its plays are instance `InstanceId`.
    LoopSound(SequenceId, SoundId, InstanceId, LoopSettings, InstanceSettings),
    MuteSequence(SequenceId),
    UnmuteSequence(SequenceId),
    PauseSequence(SequenceId),
    ResumeSequence(SequenceId),
    StopSequence(SequenceId),
}

/// Control intent, carried from the control thread to the audio thread.
pub enum Command {
    Sound(SoundCommand),
    Instance(InstanceCommand),
    Metronome(MetronomeCommand),
    Sequence(SequenceCommand),
    EmitCustomEvent(CustomEvent),
}

} // verus!
