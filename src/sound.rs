use vstd::prelude::*;

verus! {

/// Largest number of frames a sound may hold.
pub const MAX_SOUND_FRAMES: u64 = 1_000_000_000_000;

/// Names a loaded sound and carries what the audio side needs to know of it
/// without looking the sound up.
#[derive(Clone, Copy, Debug, PartialEq, Eq, Structural)]
pub struct SoundId {
    pub index: u64,
    /// Length of the sound in frames.
    pub duration: u64,
    /// Tempo the sound was authored at, in beats per minute.
    pub tempo: Option<u64>,
    /// Musical length of the sound, in millionths of a beat.
    pub semantic_duration: Option<u64>,
}

/// One frame of 16-bit stereo audio.
#[derive(Clone, Copy, Debug, PartialEq, Eq, Structural)]
pub struct StereoFrame {
    pub left: i16,
    pub right: i16,
}

/// One frame of mixed output.
#[derive(Clone, Copy, Debug, PartialEq, Eq, Structural)]
pub struct Frame {
    pub left: i64,
    pub right: i64,
}

impl Frame {
    /// Both channels averaged for a one-channel device, rounded toward zero.
    pub fn mono(&self) -> (r: i64)
        ensures
            r == if self.left + self.right >= 0 {
                (self.left + self.right) / 2
            } else {
                -((-(self.left + self.right)) / 2)
            },
    {
        let sum: i128 = self.left as i128 + self.right as i128;
        let half: i128 = if sum >= 0 {
            ((sum as u128) / 2) as i128
        } else {
            -((((-sum) as u128) / 2) as i128)
        };
        half as i64
    }

    pub fn silence() -> (r: Frame)
        ensures
            r.left == 0 && r.right == 0,
    {
        Frame { left: 0, right: 0 }
    }
}

/// An immutable buffer of stereo frames.
pub struct Sound {
    pub frames: Vec<StereoFrame>,
    pub sample_rate: u32,
    /// Tempo the sound was authored at, in beats per minute.
    pub tempo: Option<u64>,
    /// Musical length of the sound, in millionths of a beat.
    pub semantic_duration: Option<u64>,
}

impl Sound {
    pub open spec fn wf(&self) -> bool {
        self.frames@.len() <= MAX_SOUND_FRAMES
    }

    pub fn new(frames: Vec<StereoFrame>, sample_rate: u32, tempo: Option<u64>, semantic_duration: Option<u64>) -> (r: Sound)
        requires
            frames@.len() <= MAX_SOUND_FRAMES,
        ensures
            r.wf(),
            r.frames@ == frames@,
            r.sample_rate == sample_rate,
            r.tempo == tempo,
            r.semantic_duration == semantic_duration,
    {
        Sound { frames, sample_rate, tempo, semantic_duration }
    }

    /// Length in frames.
    pub fn len(&self) -> (r: u64)
        requires
            self.wf(),
        ensures
            r == self.frames@.len(),
    {
        self.frames.len() as u64
    }
}

} // verus!
