// Real-time audio scheduling: tweened parameters, playing instances, a
// metronome, a timeline interpreter for sequences, and the audio-side engine
// that drains the command ring and mixes each frame.
use vstd::prelude::*;

pub mod tween;
pub mod parameter;
pub mod metronome;
pub mod sound;
pub mod instance;
pub mod sequence;
pub mod ring;
pub mod command;
pub mod sequences;
pub mod store;
pub mod pool;
pub mod backend;
pub mod handle;
pub mod manager;
pub mod project;

verus! {

} // verus!
