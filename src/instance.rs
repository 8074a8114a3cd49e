use vstd::prelude::*;
use crate::tween::{Tween, ONE, PARAM_LIMIT};
use crate::parameter::{Parameter, interp, in_limits, lerp};
use crate::sound::{Frame, Sound, SoundId, MAX_SOUND_FRAMES};

verus! {

#[derive(Clone, Copy, Debug, PartialEq, Eq, Structural)]
pub enum PlaybackState {
    Playing,
    Paused,
    Stopped,
    Pausing,
    Stopping,
    Resuming,
}

/// Names one playing copy of a sound.
#[derive(Clone, Copy, Debug, PartialEq, Eq, Structural)]
pub struct InstanceId {
    pub index: u64,
}

/// How an instance starts. Positions are in millionths of a frame, volume,
/// pitch and panning in millionths.
#[derive(Clone, Copy, Debug, PartialEq, Eq, Structural)]
pub struct InstanceSettings {
    pub position: i64,
    pub volume: i64,
    pub pitch: i64,
    pub panning: i64,
    pub reverse: bool,
    pub loop_start: Option<i64>,
}

impl InstanceSettings {
    pub fn new() -> (r: InstanceSettings)
        ensures
            r.position == 0,
            r.volume == ONE,
            r.pitch == ONE,
            r.panning == ONE / 2,
            !r.reverse,
            r.loop_start is None,
    {
        InstanceSettings {
            position: 0,
            volume: ONE,
            pitch: ONE,
            panning: ONE / 2,
            reverse: false,
            loop_start: None,
        }
    }
}

/// `v` forced into the range a parameter can hold.
pub open spec fn clamp_spec(v: i64) -> i64 {
    if v > PARAM_LIMIT {
        PARAM_LIMIT
    } else if v < -PARAM_LIMIT {
        (-PARAM_LIMIT) as i64
    } else {
        v
    }
}

pub fn clamp(v: i64) -> (r: i64)
    ensures
        r == clamp_spec(v),
        in_limits(r as int),
{
    if v > PARAM_LIMIT {
        PARAM_LIMIT
    } else if v < -PARAM_LIMIT {
        -PARAM_LIMIT
    } else {
        v
    }
}

/// `p / ONE`, rounded toward zero.
pub open spec fn trunc_frac(p: int) -> int {
    if p >= 0 {
        p / (ONE as int)
    } else {
        -((-p) / (ONE as int))
    }
}

pub open spec fn abs(x: int) -> int {
    if x >= 0 {
        x
    } else {
        -x
    }
}

/// Largest magnitude of a sample an instance contributes.
pub const OUT_BOUND: i64 = 40_000_000_000_000;

const PRODUCT_BOUND: i128 = 9_000_000_000_000_000_000_000_000;

proof fn lemma_mul_bound(a: int, b: int, ba: int, bb: int)
    requires
        abs(a) <= ba,
        abs(b) <= bb,
    ensures
        abs(a * b) <= ba * bb,
{
    assert(abs(a * b) == abs(a) * abs(b)) by (nonlinear_arith);
    assert(abs(a) * abs(b) <= ba * bb) by (nonlinear_arith)
        requires
            0 <= abs(a) <= ba,
            0 <= abs(b) <= bb,
    ;
}

proof fn lemma_trunc_bound(p: int, bp: int)
    requires
        abs(p) <= bp,
    ensures
        abs(trunc_frac(p)) <= bp / (ONE as int),
{
    assert(abs(p) / (ONE as int) <= bp / (ONE as int)) by (nonlinear_arith)
        requires
            abs(p) <= bp,
    ;
}

/// `a * b / ONE`, rounded toward zero.
fn mul_frac(a: i64, b: i64) -> (r: i64)
    requires
        abs(a * b) <= PRODUCT_BOUND,
    ensures
        r == trunc_frac(a * b),
{
    let p: i128 = (a as i128) * (b as i128);
    if p >= 0 {
        ((p as u128) / (ONE as u128)) as i64
    } else {
        -((((-p) as u128) / (ONE as u128)) as i64)
    }
}

/// Whether a change asks to happen at once.
pub open spec fn immediate(tween: Option<Tween>) -> bool {
    match tween {
        None => true,
        Some(t) => t.duration == 0,
    }
}

/// Position after moving by `delta` in a sound ending at `end`: inside the
/// sound it stays; outside, it wraps into `[ls, end)` when a loop starts at
/// `ls`, and without a loop playback ends (`None`).
pub open spec fn advance(pos: int, delta: int, end: int, loop_start: Option<i64>) -> Option<int> {
    let p = pos + delta;
    if 0 <= p < end {
        Some(p)
    } else {
        match loop_start {
            Some(ls) if 0 <= ls < end => if p >= end {
                Some(ls + (p - end) % (end - ls))
            } else {
                Some(end - 1 - (-p - 1) % (end - ls))
            },
            _ => None,
        }
    }
}

pub open spec fn deref_opt(o: Option<&Sound>) -> Option<Sound> {
    match o {
        Some(s) => Some(*s),
        None => None,
    }
}

/// State after the fade has been stepped.
pub open spec fn settle(state: PlaybackState, fade: Parameter) -> PlaybackState {
    match state {
        PlaybackState::Pausing if fade.value <= 0 && fade.tween is None => PlaybackState::Paused,
        PlaybackState::Stopping if fade.value <= 0 && fade.tween is None => PlaybackState::Stopped,
        PlaybackState::Resuming if fade.tween is None => PlaybackState::Playing,
        _ => state,
    }
}

/// Sample of one channel at fixed-point position `pos` by linear interpolation.
pub open spec fn sample_at(s: Seq<i16>, pos: int) -> int {
    let i = pos / (ONE as int);
    let j = if i + 1 < s.len() {
        i + 1
    } else {
        i
    };
    interp(s[i] as int, s[j] as int, pos % (ONE as int))
}

pub open spec fn lefts(sound: Sound) -> Seq<i16> {
    sound.frames@.map_values(|f: crate::sound::StereoFrame| f.left)
}

pub open spec fn rights(sound: Sound) -> Seq<i16> {
    sound.frames@.map_values(|f: crate::sound::StereoFrame| f.right)
}

/// Output of a sound at `pos` under the given volume, fade and panning.
pub open spec fn render(sound: Sound, pos: int, volume: int, fade: int, pan: int) -> Frame {
    let g = trunc_frac(volume * fade);
    let l = trunc_frac(sample_at(lefts(sound), pos) * (ONE - pan));
    let r = trunc_frac(sample_at(rights(sound), pos) * pan);
    Frame { left: trunc_frac(l * g) as i64, right: trunc_frac(r * g) as i64 }
}

/// One playing copy of a sound.
#[derive(Clone, Copy)]
pub struct Instance {
    pub sound_id: SoundId,
    /// In millionths of a frame of the sound.
    pub position: i64,
    pub state: PlaybackState,
    pub volume: Parameter,
    pub pitch: Parameter,
    pub panning: Parameter,
    pub fade: Parameter,
    pub reverse: bool,
    pub loop_start: Option<i64>,
}

fn render_exec(sound: &Sound, pos: i64, volume: i64, fade: i64, pan: i64) -> (r: Frame)
    requires
        sound.wf(),
        0 <= pos < sound.frames@.len() * ONE,
        in_limits(volume as int),
        in_limits(fade as int),
        in_limits(pan as int),
    ensures
        r == render(*sound, pos as int, volume as int, fade as int, pan as int),
        abs(r.left as int) <= OUT_BOUND,
        abs(r.right as int) <= OUT_BOUND,
{
    let n = sound.frames.len();
    let upos = pos as u64;
    let i = (upos / (ONE as u64)) as usize;
    let frac = upos % (ONE as u64);
    assert(i < n) by (nonlinear_arith)
        requires
            i == (upos as int) / (ONE as int),
            (upos as int) < (n as int) * (ONE as int),
    ;
    let j = if i + 1 < n {
        i + 1
    } else {
        i
    };
    let a = sound.frames[i];
    let b = sound.frames[j];
    let l = lerp(a.left as i64, b.left as i64, frac);
    let rr = lerp(a.right as i64, b.right as i64, frac);
    assert(lefts(*sound)[i as int] == a.left && lefts(*sound)[j as int] == b.left);
    assert(rights(*sound)[i as int] == a.right && rights(*sound)[j as int] == b.right);
    proof {
        lemma_mul_bound(volume as int, fade as int, PARAM_LIMIT as int, PARAM_LIMIT as int);
        lemma_mul_bound(l as int, (ONE - pan) as int, 32768, PARAM_LIMIT + ONE);
        lemma_mul_bound(rr as int, pan as int, 32768, PARAM_LIMIT + ONE);
    }
    let g = mul_frac(volume, fade);
    let lp = mul_frac(l, ONE - pan);
    let rp = mul_frac(rr, pan);
    proof {
        lemma_trunc_bound(volume * fade, PARAM_LIMIT * PARAM_LIMIT);
        lemma_trunc_bound(l * (ONE - pan), 32768 * (PARAM_LIMIT + ONE));
        lemma_trunc_bound(rr * pan, 32768 * (PARAM_LIMIT + ONE));
        lemma_mul_bound(lp as int, g as int, 32768 * (PARAM_LIMIT + ONE) / (ONE as int), PARAM_LIMIT * PARAM_LIMIT / (ONE as int));
        lemma_mul_bound(rp as int, g as int, 32768 * (PARAM_LIMIT + ONE) / (ONE as int), PARAM_LIMIT * PARAM_LIMIT / (ONE as int));
    }
    proof {
        lemma_trunc_bound(lp * g, (32768 * (PARAM_LIMIT + ONE) / (ONE as int)) * (PARAM_LIMIT * PARAM_LIMIT / (ONE as int)));
        lemma_trunc_bound(rp * g, (32768 * (PARAM_LIMIT + ONE) / (ONE as int)) * (PARAM_LIMIT * PARAM_LIMIT / (ONE as int)));
    }
    Frame { left: mul_frac(lp, g), right: mul_frac(rp, g) }
}

impl Instance {
    pub open spec fn wf(&self) -> bool {
        &&& self.volume.wf()
        &&& self.pitch.wf()
        &&& self.panning.wf()
        &&& self.fade.wf()
    }

    pub open spec fn new_spec(sound_id: SoundId, settings: InstanceSettings) -> Instance {
        Instance {
            sound_id,
            position: settings.position,
            state: PlaybackState::Playing,
            volume: Parameter { value: clamp_spec(settings.volume), tween: None },
            pitch: Parameter { value: clamp_spec(settings.pitch), tween: None },
            panning: Parameter { value: clamp_spec(settings.panning), tween: None },
            fade: Parameter { value: ONE, tween: None },
            reverse: settings.reverse,
            loop_start: settings.loop_start,
        }
    }

    /// A new instance of `sound_id`, playing at full fade from the settings'
    /// position; parameter values are clamped into range.
    pub fn new(sound_id: SoundId, settings: InstanceSettings) -> (r: Instance)
        ensures
            r.wf(),
            r == Instance::new_spec(sound_id, settings),
            r.sound_id == sound_id,
            r.state == PlaybackState::Playing,
            r.position == settings.position,
            r.volume == (Parameter { value: clamp_spec(settings.volume), tween: None }),
            r.pitch == (Parameter { value: clamp_spec(settings.pitch), tween: None }),
            r.panning == (Parameter { value: clamp_spec(settings.panning), tween: None }),
            r.fade == (Parameter { value: ONE, tween: None }),
            r.reverse == settings.reverse,
            r.loop_start == settings.loop_start,
    {
        Instance {
            sound_id,
            position: settings.position,
            state: PlaybackState::Playing,
            volume: Parameter::new(clamp(settings.volume)),
            pitch: Parameter::new(clamp(settings.pitch)),
            panning: Parameter::new(clamp(settings.panning)),
            fade: Parameter::new(ONE),
            reverse: settings.reverse,
            loop_start: settings.loop_start,
        }
    }

    pub open spec fn is_stopped(&self) -> bool {
        self.state == PlaybackState::Stopped
    }

    pub fn is_stopped_exec(&self) -> (r: bool)
        ensures
            r == self.is_stopped(),
    {
        self.state == PlaybackState::Stopped
    }

    /// Retargets the volume unless stopped.
    pub fn set_volume(&mut self, volume: i64, tween: Option<Tween>)
        requires
            old(self).wf(),
        ensures
            final(self).wf(),
            old(self).is_stopped() ==> *final(self) == *old(self),
            !old(self).is_stopped() ==> *final(self) == (Instance {
                volume: old(self).volume.set_spec(clamp_spec(volume), tween),
                ..*old(self)
            }),
    {
        if self.state != PlaybackState::Stopped {
            self.volume.set(clamp(volume), tween);
        }
    }

    /// Retargets the pitch unless stopped.
    pub fn set_pitch(&mut self, pitch: i64, tween: Option<Tween>)
        requires
            old(self).wf(),
        ensures
            final(self).wf(),
            old(self).is_stopped() ==> *final(self) == *old(self),
            !old(self).is_stopped() ==> *final(self) == (Instance {
                pitch: old(self).pitch.set_spec(clamp_spec(pitch), tween),
                ..*old(self)
            }),
    {
        if self.state != PlaybackState::Stopped {
            self.pitch.set(clamp(pitch), tween);
        }
    }

    /// Retargets the panning unless stopped.
    pub fn set_panning(&mut self, panning: i64, tween: Option<Tween>)
        requires
            old(self).wf(),
        ensures
            final(self).wf(),
            old(self).is_stopped() ==> *final(self) == *old(self),
            !old(self).is_stopped() ==> *final(self) == (Instance {
                panning: old(self).panning.set_spec(clamp_spec(panning), tween),
                ..*old(self)
            }),
    {
        if self.state != PlaybackState::Stopped {
            self.panning.set(clamp(panning), tween);
        }
    }

    /// Fades out and pauses a playing or resuming instance.
    pub fn pause(&mut self, tween: Option<Tween>)
        requires
            old(self).wf(),
        ensures
            final(self).wf(),
            old(self).state == PlaybackState::Playing || old(self).state == PlaybackState::Resuming
                ==> if immediate(tween) {
                *final(self) == (Instance {
                    state: PlaybackState::Paused,
                    fade: Parameter { value: 0, tween: None },
                    ..*old(self)
                })
            } else {
                *final(self) == (Instance {
                    state: PlaybackState::Pausing,
                    fade: old(self).fade.set_spec(0, tween),
                    ..*old(self)
                })
            },
            !(old(self).state == PlaybackState::Playing || old(self).state
                == PlaybackState::Resuming) ==> *final(self) == *old(self),
    {
        if self.state == PlaybackState::Playing || self.state == PlaybackState::Resuming {
            if tween.is_none() || tween.unwrap().duration == 0 {
                self.state = PlaybackState::Paused;
                self.fade.set(0, None);
            } else {
                self.state = PlaybackState::Pausing;
                self.fade.set(0, tween);
            }
        }
    }

    /// Resumes a paused or pausing instance, fading back in.
    pub fn resume(&mut self, tween: Option<Tween>)
        requires
            old(self).wf(),
        ensures
            final(self).wf(),
            old(self).state == PlaybackState::Paused || old(self).state == PlaybackState::Pausing
                ==> if immediate(tween) {
                *final(self) == (Instance {
                    state: PlaybackState::Playing,
                    fade: Parameter { value: ONE, tween: None },
                    ..*old(self)
                })
            } else {
                *final(self) == (Instance {
                    state: PlaybackState::Resuming,
                    fade: old(self).fade.set_spec(ONE, tween),
                    ..*old(self)
                })
            },
            !(old(self).state == PlaybackState::Paused || old(self).state
                == PlaybackState::Pausing) ==> *final(self) == *old(self),
    {
        if self.state == PlaybackState::Paused || self.state == PlaybackState::Pausing {
            if tween.is_none() || tween.unwrap().duration == 0 {
                self.state = PlaybackState::Playing;
                self.fade.set(ONE, None);
            } else {
                self.state = PlaybackState::Resuming;
                self.fade.set(ONE, tween);
            }
        }
    }

    /// Fades out and stops the instance for good.
    pub fn stop(&mut self, tween: Option<Tween>)
        requires
            old(self).wf(),
        ensures
            final(self).wf(),
            old(self).is_stopped() ==> *final(self) == *old(self),
            !old(self).is_stopped() ==> if immediate(tween) {
                *final(self) == (Instance {
                    state: PlaybackState::Stopped,
                    fade: Parameter { value: 0, tween: None },
                    ..*old(self)
                })
            } else {
                *final(self) == (Instance {
                    state: PlaybackState::Stopping,
                    fade: old(self).fade.set_spec(0, tween),
                    ..*old(self)
                })
            },
    {
        if self.state != PlaybackState::Stopped {
            if tween.is_none() || tween.unwrap().duration == 0 {
                self.state = PlaybackState::Stopped;
                self.fade.set(0, None);
            } else {
                self.state = PlaybackState::Stopping;
                self.fade.set(0, tween);
            }
        }
    }

    /// Moves the playback position to `position` unless stopped.
    pub fn seek_to(&mut self, position: i64)
        requires
            old(self).wf(),
        ensures
            final(self).wf(),
            old(self).is_stopped() ==> *final(self) == *old(self),
            !old(self).is_stopped() ==> *final(self) == (Instance { position, ..*old(self) }),
    {
        if self.state != PlaybackState::Stopped {
            self.position = position;
        }
    }

    /// Moves the playback position by `amount` unless stopped, saturating at
    /// the ends of the position range.
    pub fn seek_by(&mut self, amount: i64)
        requires
            old(self).wf(),
        ensures
            final(self).wf(),
            old(self).is_stopped() ==> *final(self) == *old(self),
            !old(self).is_stopped() ==> *final(self) == (Instance {
                position: if old(self).position + amount > i64::MAX {
                    i64::MAX
                } else if old(self).position + amount < i64::MIN {
                    i64::MIN
                } else {
                    (old(self).position + amount) as i64
                },
                ..*old(self)
            }),
    {
        if self.state != PlaybackState::Stopped {
            let p: i128 = self.position as i128 + amount as i128;
            self.position = if p > i64::MAX as i128 {
                i64::MAX
            } else if p < i64::MIN as i128 {
                i64::MIN
            } else {
                p as i64
            };
        }
    }

    /// The instance and its output frame after `dt` more frames.
    pub open spec fn step_spec(self, dt: u64, sound: Option<Sound>) -> (Instance, Frame) {
        let volume = self.volume.step_spec(dt);
        let pitch = self.pitch.step_spec(dt);
        let panning = self.panning.step_spec(dt);
        let fade = self.fade.step_spec(dt);
        let st = settle(self.state, fade);
        let stepped = Instance { volume, pitch, panning, fade, state: st, ..self };
        if st == PlaybackState::Stopped || st == PlaybackState::Paused {
            (stepped, Frame { left: 0, right: 0 })
        } else {
            match sound {
                None => ((Instance {
                    state: PlaybackState::Stopped,
                    ..stepped
                }), Frame { left: 0, right: 0 }),
                Some(s) => {
                    let delta = if self.reverse {
                        -(dt * pitch.value)
                    } else {
                        dt * pitch.value
                    };
                    match advance(
                        self.position as int,
                        delta,
                        s.frames@.len() * ONE,
                        self.loop_start,
                    ) {
                        None => ((Instance {
                            state: PlaybackState::Stopped,
                            ..stepped
                        }), Frame { left: 0, right: 0 }),
                        Some(np) => (Instance {
                            position: np as i64,
                            ..stepped
                        }, render(
                            s,
                            np,
                            volume.value as int,
                            fade.value as int,
                            panning.value as int,
                        )),
                    }
                },
            }
        }
    }

    /// Advances the instance by `dt` frames and returns the frame it
    /// contributes. `sound` is what its sound id resolves to, if anything.
    pub fn step(&mut self, dt: u64, sound: Option<&Sound>) -> (out: Frame)
        requires
            old(self).wf(),
            (sound is Some ==> sound->0.wf()),
        ensures
            final(self).wf(),
            old(self).is_stopped() ==> final(self).is_stopped() && out.left == 0 && out.right == 0,
            abs(out.left as int) <= OUT_BOUND,
            abs(out.right as int) <= OUT_BOUND,
            (*final(self), out) == old(self).step_spec(dt, deref_opt(sound)),
    {
        self.volume.step(dt);
        self.pitch.step(dt);
        self.panning.step(dt);
        self.fade.step(dt);
        let fade_done = self.fade.value <= 0 && self.fade.tween.is_none();
        self.state = match self.state {
            PlaybackState::Pausing if fade_done => PlaybackState::Paused,
            PlaybackState::Stopping if fade_done => PlaybackState::Stopped,
            PlaybackState::Resuming if self.fade.tween.is_none() => PlaybackState::Playing,
            other => other,
        };
        if self.state == PlaybackState::Stopped || self.state == PlaybackState::Paused {
            return Frame::silence();
        }
        let s = match sound {
            None => {
                self.state = PlaybackState::Stopped;
                return Frame::silence();
            },
            Some(s) => s,
        };
        let end: i128 = (s.len() as i128) * (ONE as i128);
        assert(end <= MAX_SOUND_FRAMES * ONE);
        proof {
            lemma_mul_bound(dt as int, self.pitch.value as int, u64::MAX as int, PARAM_LIMIT as int);
        }
        let moved: i128 = (dt as i128) * (self.pitch.value as i128);
        let delta: i128 = if self.reverse {
            -moved
        } else {
            moved
        };
        let p: i128 = self.position as i128 + delta;
        let np: i64;
        if 0 <= p && p < end {
            np = p as i64;
        } else {
            match self.loop_start {
                Some(ls) if 0 <= ls && (ls as i128) < end => {
                    let span: i128 = end - ls as i128;
                    if p >= end {
                        np = (ls as i128 + (((p - end) as u128) % (span as u128)) as i128) as i64;
                    } else {
                        np = (end - 1 - (((-p - 1) as u128) % (span as u128)) as i128) as i64;
                    }
                },
                _ => {
                    self.state = PlaybackState::Stopped;
                    return Frame::silence();
                },
            }
        }
        self.position = np;
        render_exec(s, np, self.volume.value, self.fade.value, self.panning.value)
    }
}


/// Seeking to a position inside the sound and then stepping by zero frames
/// leaves the instance exactly at that position.
pub proof fn lemma_seek_round_trip(i: Instance, pos: i64, sound: &Sound)
    requires
        i.wf(),
        !i.is_stopped(),
        sound.wf(),
        0 <= pos < sound.frames@.len() * ONE,
    ensures
        (Instance { position: pos, ..i }).step_spec(0, Some(*sound)).0.position == pos,
{
    let j = Instance { position: pos, ..i };
    let pitch = j.pitch.step_spec(0);
    assert(0 * pitch.value == 0);
}

} // verus!
