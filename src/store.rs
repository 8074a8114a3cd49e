use vstd::prelude::*;
use std::collections::HashMap;
use crate::ring::Sender;
use crate::sound::{Sound, SoundId};

verus! {

broadcast use vstd::std_specs::hash::group_hash_axioms;

/// The loaded sounds, by sound index. Owned by the audio side.
pub struct Sounds {
    pub sounds: HashMap<u64, Sound>,
}

impl Sounds {
    pub open spec fn view(&self) -> Map<u64, Sound> {
        self.sounds@
    }

    pub open spec fn wf(&self) -> bool {
        forall|k: u64| #[trigger] self@.contains_key(k) ==> self@[k].wf()
    }

    pub fn new(capacity: usize) -> (r: Sounds)
        ensures
            r.wf(),
            r@ == Map::<u64, Sound>::empty(),
    {
        Sounds { sounds: HashMap::with_capacity(capacity) }
    }

    /// Makes `sound` addressable by `id`.
    pub fn load(&mut self, id: SoundId, sound: Sound)
        requires
            old(self).wf(),
            sound.wf(),
        ensures
            final(self).wf(),
            final(self)@ == old(self)@.insert(id.index, sound),
    {
        self.sounds.insert(id.index, sound);
        assert forall|k: u64| #[trigger] self@.contains_key(k) implies self@[k].wf() by {
            if k != id.index {
                assert(old(self)@.contains_key(k));
            }
        }
    }

    /// Removes the sound under `id` and hands it to `unused`, to be dropped
    /// off the audio thread; when the ring is full the sound stays loaded.
    /// Returns whether it was handed over.
    pub fn unload(&mut self, id: SoundId, unused: &mut Sender<Sound>) -> (r: bool)
        requires
            old(self).wf(),
        ensures
            final(self).wf(),
            r ==> old(self)@.contains_key(id.index) && final(self)@ == old(self)@.remove(id.index)
                && final(unused).sent() == old(unused).sent().push(old(self)@[id.index]),
            !r ==> final(self)@ == old(self)@ && final(unused).sent() == old(unused).sent(),
            old(unused).sent().len() < old(unused).capacity() ==> r == old(self)@.contains_key(id.index),
            final(unused).capacity() == old(unused).capacity(),
    {
        match self.sounds.remove(&id.index) {
            None => {
                assert(self@ =~= old(self)@);
                false
            },
            Some(sound) => match unused.send(sound) {
                Ok(()) => {
                    assert forall|k: u64| #[trigger] self@.contains_key(k) implies self@[k].wf() by {
                        assert(old(self)@.contains_key(k));
                    }
                    true
                },
                Err(back) => {
                    self.sounds.insert(id.index, back);
                    assert(self@ =~= old(self)@);
                    false
                },
            },
        }
    }

    /// The sound under `id`, if loaded.
    pub fn get(&self, id: SoundId) -> (r: Option<&Sound>)
        requires
            self.wf(),
        ensures
            match r {
                Some(s) => self@.contains_key(id.index) && *s == self@[id.index] && s.wf(),
                None => !self@.contains_key(id.index),
            },
    {
        self.sounds.get(&id.index)
    }
}

} // verus!
