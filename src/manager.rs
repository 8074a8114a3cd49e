use vstd::prelude::*;
use crate::backend::Backend;
use crate::command::Command;
use crate::handle::CommandSender;
use crate::ring::{Receiver, channel};
use crate::sequence::Sequence;
use crate::sound::Sound;

verus! {

pub struct AudioManagerSettings {
    pub sound_capacity: usize,
    pub command_capacity: usize,
}

/// The control thread's ends of the three rings.
pub struct Controller {
    pub commands: CommandSender,
    pub unused_sounds: Receiver<Sound>,
    pub unused_sequences: Receiver<Sequence>,
    pub sound_capacity: usize,
    pub sequence_capacity: usize,
}

/// Builds the three rings and the audio-side state for a stream at
/// `sample_rate`.
pub fn create_engine(settings: &AudioManagerSettings, sample_rate: u32) -> (r: (Controller, Backend))
    requires
        settings.sound_capacity > 0,
        settings.command_capacity > 0,
        sample_rate > 0,
    ensures
        r.1.wf(),
        r.1.sample_rate == sample_rate,
        r.1.command_capacity == settings.command_capacity,
        r.1.sounds@.is_empty(),
        r.1.instances@.len() == 0,
        r.1.sequences@.len() == 0,
        r.0.sound_capacity == settings.sound_capacity,
        r.0.commands.sent() == Seq::<Command>::empty(),
        r.0.commands.capacity() == settings.command_capacity,
        r.1.unused_sounds.capacity() == settings.sound_capacity,
        r.1.unused_sequences.capacity() == settings.command_capacity,
        r.1.command_consumer.received() == Seq::<Command>::empty(),
        r.1.unused_sounds.sent() == Seq::<Sound>::empty(),
        r.0.unused_sounds.received() == Seq::<Sound>::empty(),
        r.1.unused_sequences.sent() == Seq::<Sequence>::empty(),
        r.0.unused_sequences.received() == Seq::<Sequence>::empty(),
        r.0.sequence_capacity == settings.command_capacity,
{
    let (unused_sound_producer, unused_sounds) = channel::<Sound>(settings.sound_capacity);
    let (unused_sequence_producer, unused_sequences) = channel::<Sequence>(settings.command_capacity);
    let (command_producer, command_consumer) = channel::<Command>(settings.command_capacity);
    let backend = Backend::new(
        sample_rate,
        settings.command_capacity,
        settings.sound_capacity,
        command_consumer,
        unused_sound_producer,
        unused_sequence_producer,
    );
    (
        Controller {
            commands: CommandSender { producer: command_producer },
            unused_sounds,
            unused_sequences,
            sound_capacity: settings.sound_capacity,
            sequence_capacity: settings.command_capacity,
        },
        backend,
    )
}

impl Controller {
    /// Takes back the sounds the audio thread released, dropping them here;
    /// returns how many there were.
    pub fn free_unused_sounds(&mut self) -> (r: usize)
        ensures
            r <= old(self).sound_capacity,
            final(self).sound_capacity == old(self).sound_capacity,
            final(self).unused_sounds.received().len() == old(self).unused_sounds.received().len() + r,
            final(self).unused_sounds.received().subrange(0, old(self).unused_sounds.received().len() as int)
                == old(self).unused_sounds.received(),
    {
        let mut n: usize = 0;
        while n < self.sound_capacity
            invariant
                n <= self.sound_capacity,
                self.sound_capacity == old(self).sound_capacity,
                self.unused_sounds.received().len() == old(self).unused_sounds.received().len() + n,
                self.unused_sounds.received().subrange(0, old(self).unused_sounds.received().len() as int)
                    == old(self).unused_sounds.received(),
            ensures
                n <= self.sound_capacity,
                self.sound_capacity == old(self).sound_capacity,
                self.unused_sounds.received().len() == old(self).unused_sounds.received().len() + n,
                self.unused_sounds.received().subrange(0, old(self).unused_sounds.received().len() as int)
                    == old(self).unused_sounds.received(),
            decreases self.sound_capacity - n,
        {
            match self.unused_sounds.recv() {
                Some(_) => {},
                None => break,
            }
            n = n + 1;
        }
        n
    }

    /// Takes back the sequences the audio thread released, dropping them
    /// here; returns how many there were.
    pub fn free_unused_sequences(&mut self) -> (r: usize)
        ensures
            r <= old(self).sequence_capacity,
            final(self).sequence_capacity == old(self).sequence_capacity,
            final(self).unused_sequences.received().len() == old(self).unused_sequences.received().len() + r,
            final(self).unused_sequences.received().subrange(0, old(self).unused_sequences.received().len() as int)
                == old(self).unused_sequences.received(),
    {
        let mut n: usize = 0;
        while n < self.sequence_capacity
            invariant
                n <= self.sequence_capacity,
                self.sequence_capacity == old(self).sequence_capacity,
                self.unused_sequences.received().len() == old(self).unused_sequences.received().len() + n,
                self.unused_sequences.received().subrange(0, old(self).unused_sequences.received().len() as int)
                    == old(self).unused_sequences.received(),
            ensures
                n <= self.sequence_capacity,
                self.sequence_capacity == old(self).sequence_capacity,
                self.unused_sequences.received().len() == old(self).unused_sequences.received().len() + n,
                self.unused_sequences.received().subrange(0, old(self).unused_sequences.received().len() as int)
                    == old(self).unused_sequences.received(),
            decreases self.sequence_capacity - n,
        {
            match self.unused_sequences.recv() {
                Some(_) => {},
                None => break,
            }
            n = n + 1;
        }
        n
    }
}

} // verus!
