use vstd::prelude::*;
use std::collections::HashMap;
use crate::metronome::{Metronome, intervals_ok, ordered_intervals};
use crate::sound::{Sound, SoundId};

verus! {

broadcast use vstd::std_specs::hash::group_hash_axioms;

/// Names a metronome.
#[derive(Clone, Copy, Debug, PartialEq, Eq, Structural)]
pub struct MetronomeId {
    pub index: u64,
}

pub struct MetronomeSettings {
    /// Intervals to report, in beat units; each positive, in any order.
    pub interval_events_to_emit: Vec<u64>,
}

impl Default for MetronomeSettings {
    fn default() -> (r: MetronomeSettings)
        ensures
            r.interval_events_to_emit@.len() == 0,
    {
        MetronomeSettings { interval_events_to_emit: Vec::new() }
    }
}

/// Sounds and metronomes gathered before playback, each under a fresh id.
pub struct Project {
    pub sounds: HashMap<u64, Sound>,
    pub metronomes: HashMap<u64, Metronome>,
    pub next_id: u64,
}

impl Project {
    /// Every id in use is below the next one to be handed out.
    pub open spec fn wf(&self) -> bool {
        &&& forall|k: u64| #[trigger] self.sounds@.contains_key(k) ==> k < self.next_id
        &&& forall|k: u64| #[trigger] self.metronomes@.contains_key(k) ==> k < self.next_id
    }

    pub fn new() -> (r: Project)
        ensures
            r.wf(),
            r.sounds@.is_empty(),
            r.metronomes@.is_empty(),
            r.next_id == 0,
    {
        Project { sounds: HashMap::new(), metronomes: HashMap::new(), next_id: 0 }
    }

    /// Adds a decoded sound under a fresh id that carries its length and
    /// musical metadata.
    pub fn load_sound(&mut self, sound: Sound) -> (r: SoundId)
        requires
            old(self).wf(),
            sound.wf(),
            old(self).next_id < u64::MAX,
        ensures
            final(self).wf(),
            !old(self).sounds@.contains_key(r.index),
            !old(self).metronomes@.contains_key(r.index),
            r.index == old(self).next_id,
            r.duration == sound.frames@.len(),
            r.tempo == sound.tempo,
            r.semantic_duration == sound.semantic_duration,
            final(self).next_id == old(self).next_id + 1,
            final(self).sounds@ == old(self).sounds@.insert(r.index, sound),
            final(self).metronomes@ == old(self).metronomes@,
    {
        let id = SoundId {
            index: self.next_id,
            duration: sound.len(),
            tempo: sound.tempo,
            semantic_duration: sound.semantic_duration,
        };
        self.next_id = self.next_id + 1;
        self.sounds.insert(id.index, sound);
        assert forall|k: u64| #[trigger] self.sounds@.contains_key(k) implies k < self.next_id by {
            if k != id.index {
                assert(old(self).sounds@.contains_key(k));
            }
        }
        id
    }

    /// Adds a stopped metronome at `tempo` beats per minute under a fresh id.
    pub fn create_metronome(&mut self, tempo: u64, settings: MetronomeSettings, sample_rate: u32) -> (r: MetronomeId)
        requires
            old(self).wf(),
            old(self).next_id < u64::MAX,
            sample_rate > 0,
            forall|i: int| 0 <= i < settings.interval_events_to_emit@.len() ==> settings.interval_events_to_emit@[i] > 0,
        ensures
            final(self).wf(),
            !old(self).sounds@.contains_key(r.index),
            !old(self).metronomes@.contains_key(r.index),
            forall|k: u64| k != r.index && #[trigger] old(self).metronomes@.contains_key(k) ==> final(self).metronomes@[k]
                == old(self).metronomes@[k],
            r.index == old(self).next_id,
            final(self).next_id == old(self).next_id + 1,
            final(self).metronomes@.dom() == old(self).metronomes@.dom().insert(r.index),
            final(self).metronomes@[r.index].tempo_bpm == tempo,
            intervals_ok(final(self).metronomes@[r.index].intervals@),
            forall|x: u64| final(self).metronomes@[r.index].intervals@.contains(x) <==> settings.interval_events_to_emit@.contains(x),
            !final(self).metronomes@[r.index].running,
            final(self).metronomes@[r.index].position == 0,
            final(self).sounds@ == old(self).sounds@,
    {
        let id = MetronomeId { index: self.next_id };
        self.next_id = self.next_id + 1;
        let intervals = ordered_intervals(&settings.interval_events_to_emit);
        self.metronomes.insert(id.index, Metronome::new(tempo, sample_rate, intervals));
        assert forall|k: u64| #[trigger] self.metronomes@.contains_key(k) implies k < self.next_id by {
            if k != id.index {
                assert(old(self).metronomes@.contains_key(k));
            }
        }
        id
    }
}

} // verus!
