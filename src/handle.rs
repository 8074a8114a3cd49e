use vstd::prelude::*;
use crate::command::{Command, InstanceCommand};
use crate::backend::Backend;
use crate::instance::{InstanceId, PlaybackState};
use crate::ring::Sender;
use crate::tween::Tween;

verus! {

#[derive(Clone, Copy, Debug, PartialEq, Eq, Structural)]
pub enum CommandError {
    /// The command ring had no free slot; the command was not sent.
    CommandQueueFull,
}

/// The control thread's end of the command ring.
pub struct CommandSender {
    pub producer: Sender<Command>,
}

impl CommandSender {
    /// Every command the ring has accepted, in order.
    pub open spec fn sent(&self) -> Seq<Command> {
        self.producer.sent()
    }

    /// The number of slots of the command ring.
    pub open spec fn capacity(&self) -> nat {
        self.producer.capacity()
    }

    /// Sends a command whole, or reports that the ring is full and drops it.
    pub fn send(&mut self, command: Command) -> (r: Result<(), CommandError>)
        ensures
            r is Ok ==> final(self).sent() == old(self).sent().push(command),
            old(self).sent().len() < old(self).capacity() ==> r is Ok,
            final(self).capacity() == old(self).capacity(),
            r is Err ==> r == Err::<(), CommandError>(CommandError::CommandQueueFull) && final(self).sent()
                == old(self).sent(),
    {
        match self.producer.send(command) {
            Ok(()) => Ok(()),
            Err(_) => Err(CommandError::CommandQueueFull),
        }
    }
}

/// Controls one playing sound through the command ring.
#[derive(Clone, Copy, Debug, PartialEq, Eq, Structural)]
pub struct StaticSoundHandle {
    pub id: InstanceId,
}

impl StaticSoundHandle {
    pub fn new(id: InstanceId) -> (r: StaticSoundHandle)
        ensures
            r.id == id,
    {
        StaticSoundHandle { id }
    }

    /// The state of the sound as the audio side last published it; `None`
    /// if it never started.
    pub fn state(&self, backend: &Backend) -> (r: Option<PlaybackState>)
        ensures
            r == match backend.snapshot_spec(self.id) {
                Some((st, _)) => Some(st),
                None => None,
            },
    {
        match backend.snapshot(self.id) {
            Some((st, _)) => Some(st),
            None => None,
        }
    }

    /// The playback position (millionths of a frame) as the audio side last
    /// published it; `None` if it never started.
    pub fn position(&self, backend: &Backend) -> (r: Option<i64>)
        ensures
            r == match backend.snapshot_spec(self.id) {
                Some((_, pos)) => Some(pos),
                None => None,
            },
    {
        match backend.snapshot(self.id) {
            Some((_, pos)) => Some(pos),
            None => None,
        }
    }

    /// Sets the volume (in millionths).
    pub fn set_volume(&self, sender: &mut CommandSender, volume: i64, tween: Option<Tween>) -> (r: Result<(), CommandError>)
        ensures
            r is Ok ==> final(sender).sent() == old(sender).sent().push(Command::Instance(InstanceCommand::SetInstanceVolume(self.id, volume, tween))),
            old(sender).sent().len() < old(sender).capacity() ==> r is Ok,
            final(sender).capacity() == old(sender).capacity(),
            r is Err ==> r == Err::<(), CommandError>(CommandError::CommandQueueFull) && final(sender).sent()
                == old(sender).sent(),
    {
        sender.send(Command::Instance(InstanceCommand::SetInstanceVolume(self.id, volume, tween)))
    }

    /// Sets the playback rate (in millionths), which changes speed and pitch.
    pub fn set_playback_rate(&self, sender: &mut CommandSender, rate: i64, tween: Option<Tween>) -> (r: Result<(), CommandError>)
        ensures
            r is Ok ==> final(sender).sent() == old(sender).sent().push(Command::Instance(InstanceCommand::SetInstancePitch(self.id, rate, tween))),
            old(sender).sent().len() < old(sender).capacity() ==> r is Ok,
            final(sender).capacity() == old(sender).capacity(),
            r is Err ==> r == Err::<(), CommandError>(CommandError::CommandQueueFull) && final(sender).sent()
                == old(sender).sent(),
    {
        sender.send(Command::Instance(InstanceCommand::SetInstancePitch(self.id, rate, tween)))
    }

    /// Sets the panning (in millionths): zero is hard left, half is centre,
    /// one is hard right.
    pub fn set_panning(&self, sender: &mut CommandSender, panning: i64, tween: Option<Tween>) -> (r: Result<(), CommandError>)
        ensures
            r is Ok ==> final(sender).sent() == old(sender).sent().push(Command::Instance(InstanceCommand::SetInstancePanning(self.id, panning, tween))),
            old(sender).sent().len() < old(sender).capacity() ==> r is Ok,
            final(sender).capacity() == old(sender).capacity(),
            r is Err ==> r == Err::<(), CommandError>(CommandError::CommandQueueFull) && final(sender).sent()
                == old(sender).sent(),
    {
        sender.send(Command::Instance(InstanceCommand::SetInstancePanning(self.id, panning, tween)))
    }

    /// Fades out, then pauses.
    pub fn pause(&self, sender: &mut CommandSender, tween: Option<Tween>) -> (r: Result<(), CommandError>)
        ensures
            r is Ok ==> final(sender).sent() == old(sender).sent().push(Command::Instance(InstanceCommand::PauseInstance(self.id, tween))),
            old(sender).sent().len() < old(sender).capacity() ==> r is Ok,
            final(sender).capacity() == old(sender).capacity(),
            r is Err ==> r == Err::<(), CommandError>(CommandError::CommandQueueFull) && final(sender).sent()
                == old(sender).sent(),
    {
        sender.send(Command::Instance(InstanceCommand::PauseInstance(self.id, tween)))
    }

    /// Resumes and fades back in.
    pub fn resume(&self, sender: &mut CommandSender, tween: Option<Tween>) -> (r: Result<(), CommandError>)
        ensures
            r is Ok ==> final(sender).sent() == old(sender).sent().push(Command::Instance(InstanceCommand::ResumeInstance(self.id, tween))),
            old(sender).sent().len() < old(sender).capacity() ==> r is Ok,
            final(sender).capacity() == old(sender).capacity(),
            r is Err ==> r == Err::<(), CommandError>(CommandError::CommandQueueFull) && final(sender).sent()
                == old(sender).sent(),
    {
        sender.send(Command::Instance(InstanceCommand::ResumeInstance(self.id, tween)))
    }

    /// Fades out, then stops for good.
    pub fn stop(&self, sender: &mut CommandSender, tween: Option<Tween>) -> (r: Result<(), CommandError>)
        ensures
            r is Ok ==> final(sender).sent() == old(sender).sent().push(Command::Instance(InstanceCommand::StopInstance(self.id, tween))),
            old(sender).sent().len() < old(sender).capacity() ==> r is Ok,
            final(sender).capacity() == old(sender).capacity(),
            r is Err ==> r == Err::<(), CommandError>(CommandError::CommandQueueFull) && final(sender).sent()
                == old(sender).sent(),
    {
        sender.send(Command::Instance(InstanceCommand::StopInstance(self.id, tween)))
    }

    /// Moves the playback position to `position` (millionths of a frame).
    pub fn seek_to(&self, sender: &mut CommandSender, position: i64) -> (r: Result<(), CommandError>)
        ensures
            r is Ok ==> final(sender).sent() == old(sender).sent().push(Command::Instance(InstanceCommand::SeekInstanceTo(self.id, position))),
            old(sender).sent().len() < old(sender).capacity() ==> r is Ok,
            final(sender).capacity() == old(sender).capacity(),
            r is Err ==> r == Err::<(), CommandError>(CommandError::CommandQueueFull) && final(sender).sent()
                == old(sender).sent(),
    {
        sender.send(Command::Instance(InstanceCommand::SeekInstanceTo(self.id, position)))
    }

    /// Moves the playback position by `amount` (millionths of a frame).
    pub fn seek_by(&self, sender: &mut CommandSender, amount: i64) -> (r: Result<(), CommandError>)
        ensures
            r is Ok ==> final(sender).sent() == old(sender).sent().push(Command::Instance(InstanceCommand::SeekInstanceBy(self.id, amount))),
            old(sender).sent().len() < old(sender).capacity() ==> r is Ok,
            final(sender).capacity() == old(sender).capacity(),
            r is Err ==> r == Err::<(), CommandError>(CommandError::CommandQueueFull) && final(sender).sent()
                == old(sender).sent(),
    {
        sender.send(Command::Instance(InstanceCommand::SeekInstanceBy(self.id, amount)))
    }
}

} // verus!
