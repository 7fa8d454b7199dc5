use projectm::{
    CompiledPreset, EngineEvent, ProjectM, ProjectMTouchType, TouchPoint, TouchType,
    TransitionState, MAX_SAMPLES, MONO, STEREO,
};

fn preset(name: &str, handle: u64) -> CompiledPreset {
    CompiledPreset { name: name.to_string(), handle }
}

fn active_handle(pm: &ProjectM) -> Option<u64> {
    pm.active_preset().as_ref().map(|s| s.preset.handle)
}

#[test]
fn new_engine_has_defaults() {
    let pm = ProjectM::new();
    assert_eq!(pm.get_fps(), 60);
    assert_eq!(pm.get_mesh_size(), (48, 32));
    assert_eq!(pm.get_window_size(), (800, 600));
    assert_eq!(pm.get_soft_cut_duration(), 3000);
    assert_eq!(pm.get_preset_duration(), 30000);
    assert!(!pm.get_hard_cut_enabled());
    assert!(!pm.get_preset_locked());
    assert_eq!(*pm.transition_state(), TransitionState::Idle);
    assert!(pm.active_preset().is_none());
    assert!(pm.touch_points().is_empty());
    assert_eq!(ProjectM::pcm_get_max_samples(), MAX_SAMPLES);
    let d = ProjectM::default();
    assert_eq!(d.instance().config, pm.instance().config);
}

#[test]
fn config_round_trip() {
    let mut pm = ProjectM::new();
    pm.set_beat_sensitivity(1234);
    assert_eq!(pm.get_beat_sensitivity(), 1234);
    pm.set_hard_cut_duration(7000);
    assert_eq!(pm.get_hard_cut_duration(), 7000);
    pm.set_hard_cut_enabled(true);
    assert!(pm.get_hard_cut_enabled());
    pm.set_hard_cut_sensitivity(250);
    assert_eq!(pm.get_hard_cut_sensitivity(), 250);
    pm.set_soft_cut_duration(1500);
    assert_eq!(pm.get_soft_cut_duration(), 1500);
    pm.set_preset_duration(2000);
    assert_eq!(pm.get_preset_duration(), 2000);
    pm.set_mesh_size(64, 48);
    assert_eq!(pm.get_mesh_size(), (64, 48));
    pm.set_fps(30);
    assert_eq!(pm.get_fps(), 30);
    pm.set_aspect_correction(false);
    assert!(!pm.get_aspect_correction());
    pm.set_preset_duration_variance(50);
    assert_eq!(pm.get_preset_duration_variance(), 50);
    pm.set_preset_locked(true);
    assert!(pm.get_preset_locked());
    pm.set_window_size(1920, 1080);
    assert_eq!(pm.get_window_size(), (1920, 1080));
}

#[test]
fn timer_driven_soft_cut_at_two_seconds() {
    let mut pm = ProjectM::new();
    pm.set_preset_duration(2000);
    pm.set_preset_duration_variance(0);
    pm.set_hard_cut_enabled(false);
    pm.set_soft_cut_duration(500);
    pm.cue_preset("next.milk", Ok(7));
    let mut all = Vec::new();
    for t in [0u64, 500, 1000, 1500] {
        all.extend(pm.render_frame(t, 0));
        assert_eq!(*pm.transition_state(), TransitionState::Idle);
        assert_eq!(active_handle(&pm), None);
    }
    all.extend(pm.render_frame(2000, 0));
    assert_eq!(all, vec![EngineEvent::PresetSwitchRequested { is_hard_cut: false }]);
    assert_eq!(
        *pm.transition_state(),
        TransitionState::SoftCutInProgress {
            incoming: projectm::PresetSlot { preset: preset("next.milk", 7), mesh_x: 48, mesh_y: 32 },
            elapsed_ms: 0,
            duration_ms: 500,
        }
    );
    assert_eq!(active_handle(&pm), None);
    assert!(pm.render_frame(2500, 0).is_empty());
    assert_eq!(*pm.transition_state(), TransitionState::Idle);
    assert_eq!(active_handle(&pm), Some(7));
}

#[test]
fn timer_driven_soft_cut_spans_frames() {
    let mut pm = ProjectM::new();
    pm.set_preset_duration(2000);
    pm.set_soft_cut_duration(1000);
    pm.cue_preset("next.milk", Ok(7));
    pm.render_frame(0, 0);
    pm.render_frame(1750, 0);
    let ev = pm.render_frame(2000, 0);
    assert_eq!(ev, vec![EngineEvent::PresetSwitchRequested { is_hard_cut: false }]);
    match pm.transition_state() {
        TransitionState::SoftCutInProgress { incoming, elapsed_ms, duration_ms } => {
            assert_eq!(incoming.preset.handle, 7);
            assert_eq!(*elapsed_ms, 0);
            assert_eq!(*duration_ms, 1000);
        }
        other => panic!("unexpected state {:?}", other),
    }
    assert_eq!(active_handle(&pm), None);
    pm.render_frame(2500, 0);
    assert!(matches!(pm.transition_state(), TransitionState::SoftCutInProgress { elapsed_ms: 500, .. }));
    pm.render_frame(2750, 0);
    assert!(matches!(pm.transition_state(), TransitionState::SoftCutInProgress { elapsed_ms: 750, .. }));
    pm.render_frame(3000, 0);
    assert_eq!(*pm.transition_state(), TransitionState::Idle);
    assert_eq!(active_handle(&pm), Some(7));
}

#[test]
fn display_time_is_drawn_on_the_activating_frame() {
    let mut pm = ProjectM::new();
    pm.set_preset_duration(1000);
    pm.set_preset_duration_variance(100);
    pm.set_soft_cut_duration(100);
    pm.render_frame(0, 0);
    pm.load_preset_file("blend.milk", Ok(4), true);
    pm.render_frame(100, 500);
    assert_eq!(active_handle(&pm), Some(4));
    // sigma 1.0 and a draw of +0.5 on the activating frame: 1500 ms
    assert_eq!(
        pm.instance().transitions.timer,
        projectm::DurationTimer { target_ms: Some(1500), elapsed_ms: 0 }
    );
    pm.render_frame(200, -900);
    assert_eq!(pm.instance().transitions.timer.target_ms, Some(1500));
}

#[test]
fn timer_driven_hard_cut() {
    let mut pm = ProjectM::new();
    pm.set_preset_duration(1000);
    pm.set_hard_cut_enabled(true);
    pm.cue_preset("hard.milk", Ok(3));
    pm.render_frame(0, 0);
    let ev = pm.render_frame(1000, 0);
    assert_eq!(ev, vec![EngineEvent::PresetSwitchRequested { is_hard_cut: true }]);
    assert_eq!(*pm.transition_state(), TransitionState::Idle);
    assert_eq!(active_handle(&pm), Some(3));
    assert_eq!(
        pm.instance().transitions.timer,
        projectm::DurationTimer { target_ms: Some(1000), elapsed_ms: 0 }
    );
}

#[test]
fn timer_without_cued_preset_only_asks() {
    let mut pm = ProjectM::new();
    pm.set_preset_duration(1000);
    pm.render_frame(0, 0);
    let ev = pm.render_frame(1000, 0);
    assert_eq!(ev, vec![EngineEvent::PresetSwitchRequested { is_hard_cut: false }]);
    assert_eq!(*pm.transition_state(), TransitionState::Idle);
    assert!(pm.active_preset().is_none());
    assert!(pm.render_frame(1500, 0).is_empty());
}

#[test]
fn duration_variance_changes_display_time() {
    let mut pm = ProjectM::new();
    pm.set_preset_duration(1000);
    pm.set_preset_duration_variance(100);
    // a draw of +0.5 with sigma 1.0 makes the display time 1500 ms
    pm.render_frame(0, 500);
    assert!(pm.render_frame(1400, 500).is_empty());
    assert_eq!(pm.instance().transitions.timer.target_ms, Some(1500));
    assert_eq!(pm.render_frame(1500, 500).len(), 1);
}

#[test]
fn duration_variance_floors_at_zero() {
    let mut pm = ProjectM::new();
    pm.set_preset_duration(1000);
    pm.set_preset_duration_variance(200);
    // the first frame starts the timer: its display time is drawn as 0
    assert!(pm.render_frame(0, -1000).is_empty());
    assert_eq!(pm.instance().transitions.timer, projectm::DurationTimer { target_ms: Some(0), elapsed_ms: 0 });
    let ev = pm.render_frame(10, -1000);
    assert_eq!(ev, vec![EngineEvent::PresetSwitchRequested { is_hard_cut: false }]);
    assert_eq!(pm.instance().transitions.timer, projectm::DurationTimer { target_ms: Some(0), elapsed_ms: 0 });
}

#[test]
fn frame_after_hard_cut_makes_no_automatic_switch() {
    let mut pm = ProjectM::new();
    pm.set_preset_duration(1000);
    pm.cue_preset("next.milk", Ok(7));
    pm.render_frame(0, 0);
    pm.load_preset_file("a.milk", Ok(1), false);
    // a whole preset duration passes, but it began before the hard cut
    assert!(pm.render_frame(1000, 0).is_empty());
    assert_eq!(*pm.transition_state(), TransitionState::Idle);
    assert_eq!(active_handle(&pm), Some(1));
    assert_eq!(pm.instance().transitions.timer, projectm::DurationTimer { target_ms: Some(1000), elapsed_ms: 0 });
    // the timer counts from that frame on
    assert!(pm.render_frame(1999, 0).is_empty());
    assert_eq!(pm.render_frame(2000, 0), vec![EngineEvent::PresetSwitchRequested { is_hard_cut: false }]);
    assert!(matches!(pm.transition_state(), TransitionState::SoftCutInProgress { .. }));
}

#[test]
fn hard_cut_during_soft_cut_holds_through_next_frame() {
    let mut pm = ProjectM::new();
    pm.set_preset_duration(1000);
    pm.cue_preset("next.milk", Ok(7));
    pm.render_frame(0, 0);
    pm.load_preset_file("soft.milk", Ok(1), true);
    pm.render_frame(500, 0);
    pm.load_preset_data("per_frame_1=zoom=1;", Ok(2), false);
    assert!(pm.render_frame(1500, 0).is_empty());
    assert_eq!(*pm.transition_state(), TransitionState::Idle);
    assert_eq!(active_handle(&pm), Some(2));
}

#[test]
fn failed_hard_cut_ends_soft_cut() {
    let mut pm = ProjectM::new();
    pm.render_frame(0, 0);
    pm.load_preset_file("first.milk", Ok(3), false);
    pm.render_frame(10, 0);
    pm.load_preset_file("soft.milk", Ok(1), true);
    pm.render_frame(20, 0);
    assert!(matches!(pm.transition_state(), TransitionState::SoftCutInProgress { .. }));
    pm.load_preset_file("bad.milk", Err("parse".to_string()), false);
    assert_eq!(*pm.transition_state(), TransitionState::Idle);
    let ev = pm.render_frame(30, 0);
    assert_eq!(
        ev,
        vec![EngineEvent::PresetSwitchFailed { filename: "bad.milk".to_string(), message: "parse".to_string() }]
    );
    assert_eq!(*pm.transition_state(), TransitionState::Idle);
    assert_eq!(active_handle(&pm), Some(3));
}

#[test]
fn failed_soft_cut_keeps_soft_cut_running() {
    let mut pm = ProjectM::new();
    pm.render_frame(0, 0);
    pm.load_preset_file("soft.milk", Ok(1), true);
    pm.render_frame(20, 0);
    pm.load_preset_file("bad.milk", Err("parse".to_string()), true);
    assert!(matches!(pm.transition_state(), TransitionState::SoftCutInProgress { elapsed_ms: 20, .. }));
}

#[test]
fn hard_cut_request_lands_at_once() {
    let mut pm = ProjectM::new();
    pm.render_frame(0, 0);
    pm.load_preset_file("a.milk", Ok(11), false);
    assert_eq!(*pm.transition_state(), TransitionState::Idle);
    let a = pm.active_preset().as_ref().unwrap();
    assert_eq!(a.preset, preset("a.milk", 11));
    assert_eq!((a.mesh_x, a.mesh_y), (48, 32));
    assert_eq!(pm.instance().transitions.timer, projectm::DurationTimer { target_ms: None, elapsed_ms: 0 });
    let ev = pm.render_frame(16, 0);
    assert!(ev.is_empty());
    assert_eq!(*pm.transition_state(), TransitionState::Idle);
    assert_eq!(pm.active_preset().as_ref().map(|s| &s.preset), Some(&preset("a.milk", 11)));
}

#[test]
fn locked_hard_cut_lands_at_once() {
    let mut pm = ProjectM::new();
    pm.set_preset_locked(true);
    pm.load_preset_data("per_frame_1=zoom=1;", Ok(12), false);
    assert_eq!(*pm.transition_state(), TransitionState::Idle);
    assert_eq!(active_handle(&pm), Some(12));
    assert!(pm.get_preset_locked());
}

#[test]
fn hard_cut_preempts_soft_cut() {
    let mut pm = ProjectM::new();
    pm.render_frame(0, 0);
    pm.load_preset_file("first.milk", Ok(3), false);
    pm.load_preset_file("soft.milk", Ok(1), true);
    pm.render_frame(100, 0);
    assert!(matches!(pm.transition_state(), TransitionState::SoftCutInProgress { .. }));
    pm.load_preset_data("per_frame_1=zoom=1;", Ok(2), false);
    assert_eq!(*pm.transition_state(), TransitionState::Idle);
    assert_eq!(active_handle(&pm), Some(2));
    assert_eq!(pm.active_preset().as_ref().unwrap().preset.name, "");
    pm.render_frame(200, 0);
    assert_eq!(*pm.transition_state(), TransitionState::Idle);
    assert_eq!(active_handle(&pm), Some(2));
}

#[test]
fn failed_compile_keeps_active_preset() {
    let mut pm = ProjectM::new();
    pm.render_frame(0, 0);
    pm.load_preset_file("good.milk", Ok(5), false);
    pm.render_frame(10, 0);
    pm.load_preset_file("bad.milk", Err("syntax error".to_string()), false);
    assert_eq!(*pm.transition_state(), TransitionState::Idle);
    let ev = pm.render_frame(20, 0);
    assert_eq!(
        ev,
        vec![EngineEvent::PresetSwitchFailed {
            filename: "bad.milk".to_string(),
            message: "syntax error".to_string()
        }]
    );
    assert_eq!(active_handle(&pm), Some(5));
    pm.cue_preset("worse.milk", Err("eof".to_string()));
    assert!(pm.instance().transitions.cued.is_none());
    assert_eq!(pm.render_frame(30, 0).len(), 1);
}

#[test]
fn soft_cut_progress_is_monotone_and_completes() {
    let mut pm = ProjectM::new();
    pm.set_soft_cut_duration(1000);
    pm.render_frame(0, 0);
    pm.load_preset_file("blend.milk", Ok(9), true);
    let mut last = 0u64;
    let mut frames = 0u64;
    let mut t = 0u64;
    // ceil(1000 / 300) = 4 frames
    loop {
        t += 300;
        pm.render_frame(t, 0);
        frames += 1;
        match pm.transition_state() {
            TransitionState::SoftCutInProgress { elapsed_ms, .. } => {
                assert!(*elapsed_ms >= last);
                last = *elapsed_ms;
            }
            TransitionState::Idle => break,
            other => panic!("unexpected state {:?}", other),
        }
        assert!(frames < 4);
    }
    assert_eq!(frames, 4);
    assert_eq!(active_handle(&pm), Some(9));
}

#[test]
fn locked_engine_ignores_timer_and_beats() {
    let mut pm = ProjectM::new();
    pm.set_preset_locked(true);
    pm.set_preset_duration(100);
    pm.set_hard_cut_enabled(true);
    pm.set_hard_cut_duration(0);
    pm.set_beat_sensitivity(10);
    pm.cue_preset("next.milk", Ok(4));
    pm.pcm_add_int16(&[20000, -20000], STEREO);
    for t in [0u64, 100, 200, 300] {
        assert!(pm.render_frame(t, 0).is_empty());
        assert_eq!(*pm.transition_state(), TransitionState::Idle);
        assert!(pm.active_preset().is_none());
    }
    // an explicit switch is still made
    pm.load_preset_file("explicit.milk", Ok(8), false);
    pm.render_frame(400, 0);
    assert_eq!(active_handle(&pm), Some(8));
}

#[test]
fn beat_triggers_hard_cut() {
    let mut pm = ProjectM::new();
    pm.set_hard_cut_enabled(true);
    pm.set_hard_cut_duration(1000);
    pm.set_beat_sensitivity(10000);
    pm.cue_preset("beat.milk", Ok(6));
    pm.render_frame(0, 0);
    pm.pcm_add_int16(&[12000, 12000], STEREO);
    // too early after activation
    assert!(pm.render_frame(500, 0).is_empty());
    let ev = pm.render_frame(1000, 0);
    assert_eq!(ev, vec![EngineEvent::PresetSwitchRequested { is_hard_cut: true }]);
    assert_eq!(active_handle(&pm), Some(6));
}

#[test]
fn quiet_audio_does_not_trigger_hard_cut() {
    let mut pm = ProjectM::new();
    pm.set_hard_cut_enabled(true);
    pm.set_hard_cut_duration(0);
    pm.set_beat_sensitivity(10000);
    pm.cue_preset("beat.milk", Ok(6));
    pm.pcm_add_int16(&[10000, -9000], STEREO);
    assert!(pm.render_frame(0, 0).is_empty());
    assert!(pm.render_frame(10, 0).is_empty());
}

#[test]
fn push_zero_samples_changes_nothing() {
    let mut pm = ProjectM::new();
    pm.pcm_add_int16(&[1, -300, 5, 7], STEREO);
    let before = pm.pcm_window(MAX_SAMPLES as usize);
    let energy = pm.audio_energy();
    pm.pcm_add_int16(&[], MONO);
    pm.pcm_add_uint8(&[], STEREO);
    assert_eq!(pm.pcm_window(MAX_SAMPLES as usize), before);
    assert_eq!(pm.audio_energy(), energy);
    assert_eq!(energy, 300);
}

#[test]
fn mono_is_duplicated_and_stereo_drops_half_frame() {
    let mut pm = ProjectM::new();
    pm.pcm_add_int16(&[1, 2, 3], MONO);
    assert_eq!(pm.pcm_window(100), vec![1, 1, 2, 2, 3, 3]);
    pm.pcm_add_int16(&[4, 5, 6], STEREO);
    assert_eq!(pm.pcm_window(100), vec![1, 1, 2, 2, 3, 3, 4, 5]);
    assert_eq!(pm.pcm_window(3), vec![3, 4, 5]);
}

#[test]
fn uint8_samples_are_centred_and_scaled() {
    let mut pm = ProjectM::new();
    pm.pcm_add_uint8(&[128, 0, 255, 129], STEREO);
    assert_eq!(pm.pcm_window(4), vec![0, -32768, 32512, 256]);
    assert_eq!(pm.audio_energy(), 32768);
}

#[test]
fn audio_buffer_keeps_most_recent_samples() {
    let mut pm = ProjectM::new();
    let cap = MAX_SAMPLES as usize;
    let first: Vec<i16> = (0..cap as i32).map(|i| (i % 1000) as i16).collect();
    pm.pcm_add_int16(&first, STEREO);
    assert_eq!(pm.pcm_window(cap * 2).len(), cap);
    pm.pcm_add_int16(&[-1, -2], STEREO);
    let w = pm.pcm_window(cap * 2);
    assert_eq!(w.len(), cap);
    assert_eq!(w[cap - 2..], [-1, -2]);
    assert_eq!(w[0], first[2]);
    let big: Vec<i16> = (0..(cap as i32 * 2)).map(|i| (i % 7) as i16).collect();
    pm.pcm_add_int16(&big, MONO);
    let w = pm.pcm_window(cap * 2);
    assert_eq!(w.len(), cap);
    assert_eq!(w[cap - 1], big[big.len() - 1]);
    assert_eq!(w[cap - 2], big[big.len() - 1]);
}

#[test]
fn energy_uses_recent_window() {
    let mut pm = ProjectM::new();
    pm.pcm_add_int16(&[-30000, 30000], STEREO);
    assert_eq!(pm.audio_energy(), 30000);
    let quiet = vec![100i16; 512];
    pm.pcm_add_int16(&quiet, STEREO);
    assert_eq!(pm.audio_energy(), 100);
}

#[test]
fn touch_then_destroy_leaves_no_touch() {
    let mut pm = ProjectM::new();
    pm.touch(10, 10, 1, TouchType::Circle);
    assert_eq!(pm.touch_points().len(), 1);
    pm.touch_destroy(10, 10);
    assert!(pm.touch_points().is_empty());
}

#[test]
fn touch_at_same_place_overwrites() {
    let mut pm = ProjectM::new();
    pm.touch(5, 5, 1, TouchType::Line);
    pm.touch(7, 7, 2, TouchType::Blob2);
    pm.touch(5, 5, 3, TouchType::DoubleLine);
    assert_eq!(
        pm.touch_points(),
        vec![
            TouchPoint { x: 5, y: 5, pressure: 3, kind: TouchType::DoubleLine },
            TouchPoint { x: 7, y: 7, pressure: 2, kind: TouchType::Blob2 },
        ]
    );
    pm.touch_destroy(1, 1);
    assert_eq!(pm.touch_points().len(), 2);
    pm.touch_destroy_all();
    assert!(pm.touch_points().is_empty());
}

#[test]
fn touch_drag_moves_nearest_point() {
    let mut pm = ProjectM::new();
    pm.touch_drag(1, 1, 1);
    assert!(pm.touch_points().is_empty());
    pm.touch(0, 0, 1, TouchType::Circle);
    pm.touch(100, 100, 1, TouchType::Blob3);
    pm.touch_drag(90, 95, 4);
    assert_eq!(
        pm.touch_points(),
        vec![
            TouchPoint { x: 0, y: 0, pressure: 1, kind: TouchType::Circle },
            TouchPoint { x: 90, y: 95, pressure: 4, kind: TouchType::Blob3 },
        ]
    );
    // equally near: the earlier point moves
    pm.touch(10, 0, 1, TouchType::Line);
    pm.touch_drag(5, 0, 2);
    assert_eq!(pm.touch_points()[0], TouchPoint { x: 5, y: 0, pressure: 2, kind: TouchType::Circle });
    pm.touch_drag(i32::MIN, i32::MAX, 9);
    assert_eq!(pm.touch_points().len(), 3);
}

#[test]
fn touch_type_codes() {
    let codes: Vec<ProjectMTouchType> = vec![
        TouchType::Random.into(),
        TouchType::Circle.into(),
        TouchType::RadialBlob.into(),
        TouchType::Blob2.into(),
        TouchType::Blob3.into(),
        TouchType::Blob5.into(),
        TouchType::Line.into(),
        TouchType::DoubleLine.into(),
        TouchType::DerivitaveLine.into(),
    ];
    assert_eq!(codes, vec![0, 1, 2, 3, 4, 6, 7, 8, 5]);
}

#[test]
fn mesh_size_resets_presets_in_play() {
    let mut pm = ProjectM::new();
    pm.render_frame(0, 0);
    pm.load_preset_file("a.milk", Ok(1), false);
    pm.render_frame(1, 0);
    pm.load_preset_file("b.milk", Ok(2), true);
    pm.set_mesh_size(16, 8);
    let a = pm.active_preset().as_ref().unwrap();
    assert_eq!((a.mesh_x, a.mesh_y, a.preset.handle), (16, 8, 1));
    match pm.transition_state() {
        TransitionState::SoftCutInProgress { incoming, .. } => {
            assert_eq!((incoming.mesh_x, incoming.mesh_y, incoming.preset.handle), (16, 8, 2));
        }
        other => panic!("unexpected state {:?}", other),
    }
}

#[test]
fn textures_and_debug_image_requests_come_with_next_frame() {
    let mut pm = ProjectM::new();
    let paths = vec!["/a".to_string(), "/b".to_string(), "/c".to_string()];
    pm.set_texture_search_paths(&paths, 2);
    assert_eq!(pm.instance().texture_search_paths, vec!["/a".to_string(), "/b".to_string()]);
    pm.set_texture_search_paths(&paths, 10);
    assert_eq!(pm.instance().texture_search_paths, paths);
    pm.reset_textures();
    pm.write_debug_image_on_next_frame(Some("frame.bmp"));
    pm.write_debug_image_on_next_frame(None);
    let ev = pm.render_frame(0, 0);
    assert_eq!(
        ev,
        vec![
            EngineEvent::TexturesReloadRequested,
            EngineEvent::TexturesReloadRequested,
            EngineEvent::TexturesReloadRequested,
            EngineEvent::DebugImageRequested { output_file: Some("frame.bmp".to_string()) },
            EngineEvent::DebugImageRequested { output_file: None },
        ]
    );
    assert!(pm.render_frame(1, 0).is_empty());
}

#[test]
fn clock_runs_back_gives_zero_delta() {
    let mut pm = ProjectM::new();
    pm.set_preset_duration(100);
    pm.render_frame(1000, 0);
    assert!(pm.render_frame(500, 0).is_empty());
    assert_eq!(pm.instance().transitions.timer.elapsed_ms, 0);
    assert_eq!(pm.render_frame(600, 0).len(), 1);
}
