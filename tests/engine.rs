use conductor::backend::Backend;
use conductor::command::{Command, InstanceCommand, MetronomeCommand, SequenceCommand, SoundCommand};
use conductor::handle::{CommandError, StaticSoundHandle};
use conductor::instance::{Instance, InstanceId, InstanceSettings, PlaybackState};
use conductor::manager::{create_engine, AudioManagerSettings, Controller};
use conductor::metronome::{ordered_intervals, IntervalEvent, Metronome};
use conductor::parameter::Parameter;
use conductor::project::{MetronomeSettings, Project};
use conductor::sequence::{
    CustomEvent, Duration, LoopSettings, Sequence, SequenceId, SequenceOutputCommand, SequenceStep,
};
use conductor::sound::{Frame, Sound, SoundId, StereoFrame};
use conductor::tween::{Easing, Tween, ONE};

fn engine(sample_rate: u32, capacity: usize) -> (Controller, Backend) {
    let settings = AudioManagerSettings { sound_capacity: capacity, command_capacity: capacity };
    create_engine(&settings, sample_rate)
}

fn constant_sound(frames: usize, level: i16, sample_rate: u32) -> Sound {
    let data = vec![StereoFrame { left: level, right: level }; frames];
    Sound::new(data, sample_rate, None, None)
}

fn sound_id(index: u64, sound: &Sound) -> SoundId {
    SoundId { index, duration: sound.frames.len() as u64, tempo: sound.tempo, semantic_duration: sound.semantic_duration }
}

fn send(c: &mut Controller, command: Command) {
    assert!(c.commands.send(command).is_ok());
}

#[test]
fn tween_reaches_end_and_stays_between() {
    let mut p = Parameter::new(0);
    p.set(ONE, Some(Tween::linear(10)));
    let mut last = 0;
    for _ in 0..9 {
        p.step(1);
        assert!(p.value >= last && p.value <= ONE);
        last = p.value;
        assert!(p.tween.is_some());
    }
    p.step(1);
    assert_eq!(p.value, ONE);
    assert!(p.tween.is_none());
}

#[test]
fn tween_linear_midpoint_exact() {
    let mut p = Parameter::new(ONE);
    p.set(0, Some(Tween::linear(4)));
    p.step(1);
    assert_eq!(p.value, 750_000);
    p.step(1);
    assert_eq!(p.value, 500_000);
}

#[test]
fn tween_without_duration_snaps_on_first_step() {
    let mut p = Parameter::new(5);
    p.set(9, Some(Tween::linear(0)));
    assert_eq!(p.value, 5);
    p.step(0);
    assert_eq!(p.value, 9);
    assert!(p.tween.is_none());
}

#[test]
fn set_without_tween_snaps() {
    let mut p = Parameter::new(5);
    p.set(-7, None);
    assert_eq!(p.value, -7);
}

#[test]
fn easing_values() {
    assert_eq!(Easing::Linear.ease(300_000), 300_000);
    assert_eq!(Easing::PowIn(2).ease(ONE as u64 / 2), 250_000);
    assert_eq!(Easing::PowOut(2).ease(ONE as u64 / 2), 750_000);
    assert_eq!(Easing::PowInOut(2).ease(ONE as u64 / 4), 125_000);
    assert_eq!(Easing::PowInOut(2).ease(ONE as u64), ONE as u64);
}

#[test]
fn metronome_interval_events_in_order() {
    // 4 frames per second at 120 BPM: each frame is half a beat (120 units of 240).
    let mut m = Metronome::new(120, 4, vec![120, 240]);
    let mut events = Vec::new();
    m.start();
    for _ in 0..3 {
        m.tick(1, &mut events);
    }
    assert_eq!(
        events,
        vec![
            IntervalEvent { interval: 120, position: 120 },
            IntervalEvent { interval: 120, position: 240 },
            IntervalEvent { interval: 240, position: 240 },
            IntervalEvent { interval: 120, position: 360 },
        ]
    );
    m.tick(1, &mut events);
    assert_eq!(events.len(), 6);
    m.pause();
    for _ in 0..40 {
        m.tick(1, &mut events);
    }
    assert_eq!(events.len(), 6);
    assert_eq!(m.position, 480);
    m.start();
    m.tick(1, &mut events);
    assert_eq!(events[6], IntervalEvent { interval: 120, position: 600 });
    m.tick(1, &mut events);
    assert_eq!(events[7], IntervalEvent { interval: 120, position: 720 });
    assert_eq!(events[8], IntervalEvent { interval: 240, position: 720 });
}

#[test]
fn metronome_event_count_matches_floor() {
    let mut m = Metronome::new(7, 1, vec![13]);
    let mut events = Vec::new();
    m.start();
    let mut last = 0;
    for _ in 0..1000 {
        m.tick(1, &mut events);
        assert!(m.position >= last);
        last = m.position;
    }
    assert_eq!(events.len() as u64, 7 * 1000 / 13);
}

#[test]
fn metronome_stop_rewinds() {
    let mut m = Metronome::new(60, 1, vec![]);
    let mut events = Vec::new();
    m.start();
    m.tick(3, &mut events);
    assert_eq!(m.position, 180);
    m.stop();
    assert_eq!(m.position, 0);
    assert!(!m.running);
}

#[test]
fn beats_convert_at_tempo() {
    assert_eq!(Duration::Beats(2_000_000).in_frames(120, 10), 10);
    assert_eq!(Duration::Frames(17).in_frames(120, 10), 17);
    assert_eq!(Duration::Beats(1).in_frames(0, 10), u64::MAX);
}

#[test]
fn seek_then_zero_step_keeps_position() {
    let sound = constant_sound(20, 100, 10);
    let mut i = Instance::new(sound_id(0, &sound), InstanceSettings::new());
    i.seek_to(5 * ONE);
    i.step(0, Some(&sound));
    assert_eq!(i.position, 5 * ONE);
}

#[test]
fn stopped_instance_stays_silent() {
    let sound = constant_sound(20, 1000, 10);
    let mut i = Instance::new(sound_id(0, &sound), InstanceSettings::new());
    i.stop(None);
    assert_eq!(i.state, PlaybackState::Stopped);
    i.resume(None);
    i.set_volume(2 * ONE, None);
    for _ in 0..5 {
        let f = i.step(1, Some(&sound));
        assert_eq!((f.left, f.right), (0, 0));
        assert_eq!(i.state, PlaybackState::Stopped);
    }
}

#[test]
fn instance_renders_with_pan_and_volume() {
    let sound = constant_sound(20, 1000, 10);
    let mut i = Instance::new(sound_id(0, &sound), InstanceSettings::new());
    let f = i.step(1, Some(&sound));
    assert_eq!((f.left, f.right), (500, 500));
    i.set_panning(ONE, None);
    let f = i.step(1, Some(&sound));
    assert_eq!((f.left, f.right), (0, 1000));
}

#[test]
fn instance_without_sound_stops() {
    let sound = constant_sound(20, 1000, 10);
    let mut i = Instance::new(sound_id(0, &sound), InstanceSettings::new());
    let f = i.step(1, None);
    assert_eq!((f.left, f.right), (0, 0));
    assert_eq!(i.state, PlaybackState::Stopped);
}

#[test]
fn instance_ends_without_loop_and_wraps_with_one() {
    let sound = constant_sound(4, 1000, 10);
    let mut i = Instance::new(sound_id(0, &sound), InstanceSettings::new());
    for _ in 0..3 {
        i.step(1, Some(&sound));
    }
    assert_eq!(i.state, PlaybackState::Playing);
    i.step(1, Some(&sound));
    assert_eq!(i.state, PlaybackState::Stopped);
    let mut settings = InstanceSettings::new();
    settings.loop_start = Some(ONE);
    let mut j = Instance::new(sound_id(0, &sound), settings);
    for _ in 0..4 {
        j.step(1, Some(&sound));
    }
    assert_eq!(j.state, PlaybackState::Playing);
    assert_eq!(j.position, ONE);
}

#[test]
fn fade_to_stop() {
    let sr = 100;
    let (mut c, mut b) = engine(sr, 16);
    let sound = constant_sound(200, 10_000, sr);
    let sid = sound_id(1, &sound);
    let iid = InstanceId { index: 1 };
    send(&mut c, Command::Sound(SoundCommand::LoadSound(sid, sound)));
    send(&mut c, Command::Instance(InstanceCommand::PlaySound(sid, iid, InstanceSettings::new())));
    for _ in 0..50 {
        b.process();
    }
    send(&mut c, Command::Instance(InstanceCommand::StopInstance(iid, Some(Tween::linear(25)))));
    let mut last = i64::MAX;
    for _ in 50..74 {
        let f = b.process();
        assert!(f.left.abs() <= last);
        last = f.left.abs();
    }
    assert_eq!(b.instances.instances[0].1.state, PlaybackState::Stopping);
    let f = b.process();
    assert_eq!((f.left, f.right), (0, 0));
    assert!(b.instances.instances.is_empty());
    assert_eq!(StaticSoundHandle::new(iid).state(&b), Some(PlaybackState::Stopped));
    for _ in 0..50 {
        let f = b.process();
        assert_eq!((f.left, f.right), (0, 0));
    }
}

#[test]
fn loop_macro_period() {
    let sr = 10;
    let (mut c, mut b) = engine(sr, 16);
    let data = vec![StereoFrame { left: 1, right: 1 }; 40];
    let sound = Sound::new(data, sr, Some(120), Some(8_000_000));
    let sid = sound_id(1, &sound);
    send(&mut c, Command::Sound(SoundCommand::LoadSound(sid, sound)));
    let ls = LoopSettings { start: Some(Duration::Beats(2_000_000)), end: Some(Duration::Beats(6_000_000)) };
    send(
        &mut c,
        Command::Sequence(SequenceCommand::LoopSound(
            SequenceId { index: 1 },
            sid,
            InstanceId { index: 7 },
            ls,
            InstanceSettings::new(),
        )),
    );
    b.process();
    assert_eq!(b.instances.instances.len(), 1);
    assert_eq!(b.instances.instances[0].1.position, ONE);
    for _ in 1..30 {
        b.process();
    }
    assert_eq!(b.instances.instances.len(), 1);
    b.process();
    assert_eq!(b.instances.instances.len(), 2);
    assert_eq!(b.instances.instances[1].1.position, 11 * ONE);
    for _ in 0..19 {
        b.process();
    }
    // The first play has reached the end of the sound and is gone.
    assert_eq!(b.instances.instances.len(), 1);
    b.process();
    assert_eq!(b.instances.instances.len(), 2);
    assert_eq!(b.instances.instances[1].1.position, 11 * ONE);
}

#[test]
fn muted_sequence_emits_control_events_only() {
    let sr = 10;
    let (mut c, mut b) = engine(sr, 16);
    let a = SoundId { index: 1, duration: 10, tempo: None, semantic_duration: None };
    let bb = SoundId { index: 2, duration: 10, tempo: None, semantic_duration: None };
    let e = CustomEvent { id: 42 };
    let mut s = Sequence::new();
    s.play_sound(a, InstanceId { index: 1 }, InstanceSettings::new());
    s.wait(Duration::Frames(10));
    s.push(SequenceStep::Output(SequenceOutputCommand::EmitCustomEvent(e)));
    s.play_sound(bb, InstanceId { index: 2 }, InstanceSettings::new());
    let id = SequenceId { index: 3 };
    send(&mut c, Command::Sequence(SequenceCommand::StartSequence(id, s)));
    send(&mut c, Command::Sequence(SequenceCommand::MuteSequence(id)));
    for _ in 0..10 {
        b.process();
    }
    assert!(b.custom_events.is_empty());
    b.process();
    assert_eq!(b.custom_events, vec![e]);
    for _ in 0..30 {
        b.process();
    }
    assert_eq!(b.custom_events, vec![e]);
    assert!(b.instances.instances.is_empty());
    assert_eq!(b.sequences.sequences.len(), 0);
    assert_eq!(c.free_unused_sequences(), 1);
}

#[test]
fn command_ring_overflow() {
    let (mut c, mut b) = engine(10, 4);
    let id = InstanceId { index: 1 };
    for _ in 0..4 {
        let r = c.commands.send(Command::Instance(InstanceCommand::SetInstanceVolume(id, ONE, None)));
        assert_eq!(r, Ok(()));
    }
    let r = c.commands.send(Command::Instance(InstanceCommand::SetInstanceVolume(id, ONE, None)));
    assert_eq!(r, Err(CommandError::CommandQueueFull));
    b.process();
    let r = c.commands.send(Command::Instance(InstanceCommand::SetInstanceVolume(id, ONE, None)));
    assert_eq!(r, Ok(()));
}

#[test]
fn unload_delivers_sound_once() {
    let (mut c, mut b) = engine(10, 4);
    let sound = constant_sound(20, 5, 10);
    let sid = sound_id(1, &sound);
    let iid = InstanceId { index: 1 };
    send(&mut c, Command::Sound(SoundCommand::LoadSound(sid, sound)));
    send(&mut c, Command::Instance(InstanceCommand::PlaySound(sid, iid, InstanceSettings::new())));
    b.process();
    send(&mut c, Command::Instance(InstanceCommand::StopInstance(iid, Some(Tween::linear(0)))));
    b.process();
    send(&mut c, Command::Sound(SoundCommand::UnloadSound(sid)));
    b.process();
    assert_eq!(b.sounds_released, 1);
    assert_eq!(c.free_unused_sounds(), 1);
    b.process();
    assert_eq!(c.free_unused_sounds(), 0);
}

#[test]
fn commands_apply_in_order() {
    let (mut c, mut b) = engine(10, 8);
    let sound = constant_sound(100, 5, 10);
    let sid = sound_id(1, &sound);
    let iid = InstanceId { index: 1 };
    send(&mut c, Command::Sound(SoundCommand::LoadSound(sid, sound)));
    send(&mut c, Command::Instance(InstanceCommand::PlaySound(sid, iid, InstanceSettings::new())));
    send(&mut c, Command::Instance(InstanceCommand::SetInstanceVolume(iid, ONE / 2, None)));
    send(&mut c, Command::Instance(InstanceCommand::SetInstanceVolume(iid, ONE / 4, None)));
    send(&mut c, Command::Instance(InstanceCommand::ResumeInstance(iid, None)));
    send(&mut c, Command::Instance(InstanceCommand::PauseInstance(iid, None)));
    b.process();
    let inst = b.instances.instances[0].1;
    assert_eq!(inst.volume.value, ONE / 4);
    assert_eq!(inst.state, PlaybackState::Paused);
}

#[test]
fn handle_sends_to_its_instance() {
    let (mut c, mut b) = engine(10, 8);
    let sound = constant_sound(100, 5, 10);
    let sid = sound_id(1, &sound);
    let iid = InstanceId { index: 9 };
    send(&mut c, Command::Sound(SoundCommand::LoadSound(sid, sound)));
    send(&mut c, Command::Instance(InstanceCommand::PlaySound(sid, iid, InstanceSettings::new())));
    let h = StaticSoundHandle::new(iid);
    assert!(h.set_volume(&mut c.commands, 3 * ONE, None).is_ok());
    assert!(h.seek_to(&mut c.commands, 50 * ONE).is_ok());
    b.process();
    let inst = b.instances.instances[0].1;
    assert_eq!(inst.volume.value, 3 * ONE);
    assert_eq!(inst.position, 51 * ONE);
    assert!(h.stop(&mut c.commands, None).is_ok());
    b.process();
    assert!(b.instances.instances.is_empty());
}

#[test]
fn broadcast_by_sound() {
    let (mut c, mut b) = engine(10, 8);
    let sound = constant_sound(100, 5, 10);
    let sid = sound_id(1, &sound);
    let other = SoundId { index: 2, duration: 100, tempo: None, semantic_duration: None };
    send(&mut c, Command::Sound(SoundCommand::LoadSound(sid, sound)));
    send(&mut c, Command::Instance(InstanceCommand::PlaySound(sid, InstanceId { index: 1 }, InstanceSettings::new())));
    send(&mut c, Command::Instance(InstanceCommand::PlaySound(sid, InstanceId { index: 2 }, InstanceSettings::new())));
    send(&mut c, Command::Instance(InstanceCommand::PlaySound(other, InstanceId { index: 3 }, InstanceSettings::new())));
    send(&mut c, Command::Instance(InstanceCommand::PauseInstancesOfSound(sid, None)));
    b.process();
    // The instance of the sound that was never loaded stopped and was dropped.
    assert_eq!(b.instances.instances.len(), 2);
    assert_eq!(b.instances.instances[0].1.state, PlaybackState::Paused);
    assert_eq!(b.instances.instances[1].1.state, PlaybackState::Paused);
}

#[test]
fn metronome_commands_route() {
    let (mut c, mut b) = engine(10, 8);
    send(&mut c, Command::Metronome(MetronomeCommand::SetMetronomeTempo(60)));
    send(&mut c, Command::Metronome(MetronomeCommand::StartMetronome));
    b.process();
    assert_eq!(b.metronome.position, 60);
    send(&mut c, Command::Metronome(MetronomeCommand::StopMetronome));
    b.process();
    assert_eq!(b.metronome.position, 0);
}

#[test]
fn sequence_pause_freezes_and_stop_finishes() {
    let (mut c, mut b) = engine(10, 8);
    let e = CustomEvent { id: 1 };
    let mut s = Sequence::new();
    s.wait(Duration::Frames(3));
    s.push(SequenceStep::Output(SequenceOutputCommand::EmitCustomEvent(e)));
    let id = SequenceId { index: 5 };
    send(&mut c, Command::Sequence(SequenceCommand::StartSequence(id, s)));
    b.process();
    send(&mut c, Command::Sequence(SequenceCommand::PauseSequence(id)));
    for _ in 0..10 {
        b.process();
    }
    assert!(b.custom_events.is_empty());
    send(&mut c, Command::Sequence(SequenceCommand::ResumeSequence(id)));
    b.process();
    b.process();
    b.process();
    assert_eq!(b.custom_events, vec![e]);
    assert_eq!(b.sequences.sequences.len(), 0);
}

#[test]
fn project_mints_fresh_ids() {
    let mut p = Project::new();
    let a = p.load_sound(constant_sound(5, 1, 10));
    let b = p.load_sound(constant_sound(7, 1, 10));
    assert_eq!(a.index, 0);
    assert_eq!(b.index, 1);
    assert_eq!(b.duration, 7);
    let m = p.create_metronome(120, MetronomeSettings::default(), 10);
    assert_eq!(m.index, 2);
    assert_eq!(p.sounds.len(), 2);
    assert_eq!(p.metronomes.len(), 1);
}

#[test]
fn full_sound_ring_keeps_sound_loaded() {
    let settings = AudioManagerSettings { sound_capacity: 1, command_capacity: 8 };
    let (mut c, mut b) = create_engine(&settings, 10);
    let s1 = constant_sound(4, 1, 10);
    let s2 = constant_sound(4, 1, 10);
    let id1 = sound_id(1, &s1);
    let id2 = sound_id(2, &s2);
    send(&mut c, Command::Sound(SoundCommand::LoadSound(id1, s1)));
    send(&mut c, Command::Sound(SoundCommand::LoadSound(id2, s2)));
    b.process();
    send(&mut c, Command::Sound(SoundCommand::UnloadSound(id1)));
    send(&mut c, Command::Sound(SoundCommand::UnloadSound(id2)));
    b.process();
    assert_eq!(b.sounds_released, 1);
    assert!(b.sounds.get(id2).is_some());
    assert!(b.sounds.get(id1).is_none());
    assert_eq!(c.free_unused_sounds(), 1);
    send(&mut c, Command::Sound(SoundCommand::UnloadSound(id2)));
    b.process();
    assert!(b.sounds.get(id2).is_none());
    assert_eq!(c.free_unused_sounds(), 1);
}

#[test]
fn restarting_a_sequence_replaces_it_in_place() {
    let (mut c, mut b) = engine(10, 8);
    let mut first = Sequence::new();
    first.wait(Duration::Frames(100));
    let mut second = Sequence::new();
    second.wait(Duration::Frames(100));
    second.wait(Duration::Frames(100));
    let other = Sequence::new();
    let id = SequenceId { index: 1 };
    send(&mut c, Command::Sequence(SequenceCommand::StartSequence(id, first)));
    let mut filler = other;
    filler.wait(Duration::Frames(100));
    send(&mut c, Command::Sequence(SequenceCommand::StartSequence(SequenceId { index: 2 }, filler)));
    b.process();
    send(&mut c, Command::Sequence(SequenceCommand::StartSequence(id, second)));
    b.process();
    assert_eq!(b.sequences.sequences.len(), 2);
    let (key, s) = b.sequences.sequences.get_index(0).unwrap();
    assert_eq!(*key, 1);
    assert_eq!(s.steps.len(), 2);
}

#[test]
fn seek_by_saturates() {
    let sound = constant_sound(20, 100, 10);
    let mut i = Instance::new(sound_id(0, &sound), InstanceSettings::new());
    i.seek_to(i64::MAX - 5);
    i.seek_by(100);
    assert_eq!(i.position, i64::MAX);
    i.seek_by(-10);
    assert_eq!(i.position, i64::MAX - 10);
}

#[test]
fn pause_takes_over_a_resume() {
    let sound = constant_sound(20, 100, 10);
    let mut i = Instance::new(sound_id(0, &sound), InstanceSettings::new());
    i.pause(None);
    assert_eq!(i.state, PlaybackState::Paused);
    i.resume(Some(Tween::linear(10)));
    assert_eq!(i.state, PlaybackState::Resuming);
    i.step(1, Some(&sound));
    i.pause(Some(Tween::linear(4)));
    assert_eq!(i.state, PlaybackState::Pausing);
    for _ in 0..4 {
        i.step(1, Some(&sound));
    }
    assert_eq!(i.state, PlaybackState::Paused);
    assert_eq!(i.fade.value, 0);
}

#[test]
fn engine_reports_interval_events() {
    let (mut c, mut b) = engine(4, 8);
    b.set_metronome(Metronome::new(120, 4, vec![240]));
    send(&mut c, Command::Metronome(MetronomeCommand::StartMetronome));
    for _ in 0..4 {
        b.process();
    }
    assert_eq!(
        b.interval_events,
        vec![IntervalEvent { interval: 240, position: 240 }, IntervalEvent { interval: 240, position: 480 }]
    );
}

#[test]
fn sequence_waits_for_metronome_interval() {
    let (mut c, mut b) = engine(4, 8);
    let e = CustomEvent { id: 3 };
    let mut s = Sequence::new();
    s.push(SequenceStep::WaitForInterval(240));
    s.push(SequenceStep::Output(SequenceOutputCommand::EmitCustomEvent(e)));
    send(&mut c, Command::Metronome(MetronomeCommand::StartMetronome));
    send(&mut c, Command::Sequence(SequenceCommand::StartSequence(SequenceId { index: 1 }, s)));
    b.process();
    assert!(b.custom_events.is_empty());
    b.process();
    assert_eq!(b.custom_events, vec![e]);
}

#[test]
fn intervals_are_ordered_and_distinct() {
    assert_eq!(ordered_intervals(&vec![240, 120, 240]), vec![120, 240]);
    assert_eq!(ordered_intervals(&vec![]), Vec::<u64>::new());
    let mut p = Project::new();
    let settings = MetronomeSettings { interval_events_to_emit: vec![240, 120] };
    let m = p.create_metronome(120, settings, 4);
    assert_eq!(p.metronomes[&m.index].intervals, vec![120, 240]);
}

#[test]
fn mono_downmix_averages() {
    assert_eq!(Frame { left: 3, right: 6 }.mono(), 4);
    assert_eq!(Frame { left: -3, right: -6 }.mono(), -4);
    assert_eq!(Frame { left: i64::MIN, right: i64::MIN }.mono(), i64::MIN);
}

#[test]
fn snapshot_shows_state_and_position() {
    let (mut c, mut b) = engine(10, 8);
    let sound = constant_sound(100, 5, 10);
    let sid = sound_id(1, &sound);
    let iid = InstanceId { index: 4 };
    send(&mut c, Command::Sound(SoundCommand::LoadSound(sid, sound)));
    send(&mut c, Command::Instance(InstanceCommand::PlaySound(sid, iid, InstanceSettings::new())));
    b.process();
    b.process();
    assert_eq!(b.snapshot(iid), Some((PlaybackState::Playing, 2 * ONE)));
    assert_eq!(b.snapshot(InstanceId { index: 5 }), None);
    let h = StaticSoundHandle::new(iid);
    assert!(h.pause(&mut c.commands, None).is_ok());
    b.process();
    assert_eq!(b.snapshot(iid), Some((PlaybackState::Paused, 2 * ONE)));
    assert_eq!(h.state(&b), Some(PlaybackState::Paused));
    assert!(h.stop(&mut c.commands, None).is_ok());
    b.process();
    assert!(b.instances.instances.is_empty());
    assert_eq!(h.state(&b), Some(PlaybackState::Stopped));
    assert_eq!(h.position(&b), Some(2 * ONE));
}
