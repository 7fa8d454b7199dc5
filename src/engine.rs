use vstd::prelude::*;
use crate::audio::{AudioBuffer, MAX_SAMPLES, MONO, STEREO, ProjectMChannels, keep_last, stereo_of, widen_u8};
use crate::clock::{FrameClock, delta_spec};
use crate::config::{EngineConfig, default_config};
use crate::touch::{TouchOverlay, TouchPoint, TouchType, added, destroyed, dragged};
use crate::transition::{
    CompiledPreset,
    EngineEvent,
    PresetSlot,
    TransitionController,
    TransitionState,
    fresh_timer,
    frame_step,
    locked_frame_makes_no_switch,
    meshes_reset,
};

verus! {

/// The whole state of one engine instance.
#[derive(Debug)]
pub struct ProjectMHandle {
    pub config: EngineConfig,
    pub clock: FrameClock,
    pub audio: AudioBuffer,
    pub transitions: TransitionController,
    pub touches: TouchOverlay,
    /// Events queued since the last frame, handed out by `render_frame`.
    pub events: Vec<EngineEvent>,
    pub texture_search_paths: Vec<String>,
}

impl ProjectMHandle {
    /// The parts are well formed, the audio buffer holds `MAX_SAMPLES` at most, and
    /// switch requests are never left queued between frames (only a frame makes them,
    /// and it hands them out at once).
    pub open spec fn wf(&self) -> bool {
        &&& self.audio.wf()
        &&& self.audio.cap() == MAX_SAMPLES
        &&& self.transitions.wf()
        &&& self.touches.wf()
        &&& forall|i: int|
            0 <= i < self.events@.len() ==> !(#[trigger] self.events@[i] is PresetSwitchRequested)
    }
}

/// An audio-reactive visualization engine. Callers serialize their calls; observers of
/// the events that `render_frame` returns must not call back into the engine.
#[derive(Debug)]
pub struct ProjectM {
    instance: ProjectMHandle,
}

/// Major, minor and patch version of the engine.
pub open spec fn version_spec() -> (i32, i32, i32) {
    (4, 0, 0)
}

impl ProjectM {
    pub closed spec fn state(&self) -> ProjectMHandle {
        self.instance
    }

    pub open spec fn wf(&self) -> bool {
        self.state().wf()
    }

    /// Creates an engine with the default settings, no preset, no audio and no touches.
    pub fn new() -> (r: Self)
        ensures
            r.wf(),
            r.state().config == default_config(),
            r.state().clock.last_tick() is None,
            r.state().audio@ == Seq::<i16>::empty(),
            r.state().audio.cap() == MAX_SAMPLES,
            r.state().transitions.active is None,
            r.state().transitions.state is Idle,
            r.state().transitions.timer == fresh_timer(),
            r.state().transitions.cued is None,
            r.state().touches@ == Seq::<TouchPoint>::empty(),
            r.state().events@ == Seq::<EngineEvent>::empty(),
            r.state().texture_search_paths@ == Seq::<String>::empty(),
    {
        ProjectM {
            instance: ProjectMHandle {
                config: EngineConfig::new(),
                clock: FrameClock::new(),
                audio: AudioBuffer::new(),
                transitions: TransitionController::new(),
                touches: TouchOverlay::new(),
                events: Vec::new(),
                texture_search_paths: Vec::new(),
            },
        }
    }

    /// Returns a reference to the engine's state.
    pub fn instance(&self) -> (r: &ProjectMHandle)
        ensures
            *r == self.state(),
    {
        &self.instance
    }

    fn load_compiled(&mut self, name: String, compiled: Result<u64, String>, smooth_transition: bool)
        requires
            old(self).wf(),
        ensures
            final(self).wf(),
            load_step(old(self).state(), final(self).state(), name@, compiled, smooth_transition),
    {
        match compiled {
            Ok(handle) => {
                let preset = CompiledPreset { name, handle };
                self.instance.transitions.request(preset, smooth_transition, &self.instance.config);
            },
            Err(message) => {
                if !smooth_transition {
                    self.instance.transitions.abandon();
                }
                self.instance.events.push(EngineEvent::PresetSwitchFailed { filename: name, message });
                assert(self.instance.events@.drop_last() =~= old(self).instance.events@);
            },
        }
    }

    /// Switches to the preset compiled from the file `file`: `compiled` is the compiler's
    /// handle, or its error message. A failed compile queues a `PresetSwitchFailed` event
    /// and keeps the active preset; a failed hard cut still ends any soft cut under way
    /// and restarts the duration timer. The switch is made even while
    /// presets are locked. With `smooth_transition` it is a soft cut that starts at zero
    /// and replaces any soft cut under way; otherwise it is a hard cut: the preset is
    /// the active one when the call returns, any soft cut under way is dropped, and the
    /// duration timer restarts. A restarted timer starts counting on the next frame, which
    /// therefore makes no automatic switch.
    pub fn load_preset_file(&mut self, file: &str, compiled: Result<u64, String>, smooth_transition: bool)
        requires
            old(self).wf(),
        ensures
            final(self).wf(),
            load_step(old(self).state(), final(self).state(), file@, compiled, smooth_transition),
    {
        self.load_compiled(file.to_owned(), compiled, smooth_transition);
    }

    /// Switches to a preset given as text, like `load_preset_file`; such a preset has
    /// an empty name.
    pub fn load_preset_data(&mut self, data: &str, compiled: Result<u64, String>, smooth_transition: bool)
        requires
            old(self).wf(),
        ensures
            final(self).wf(),
            load_step(old(self).state(), final(self).state(), Seq::<char>::empty(), compiled, smooth_transition),
    {
        self.load_compiled(String::new(), compiled, smooth_transition);
    }
}

impl ProjectM {
    /// One frame at wall-clock time `now_ms`: the clock gives the time since the last
    /// frame, the audio gives its energy, the transition state machine advances (taking
    /// `gaussian_milli`, a standard normal draw in thousandths, for a newly active
    /// preset's display time), and the events queued since the last frame are returned
    /// for the caller to hand to its observers. An automatic switch always queues a
    /// `PresetSwitchRequested` event; it brings in a new preset only when one was cued
    /// (`cue_preset`), and otherwise leaves the engine idle on its active preset. Drawing the presets in play, blended by
    /// the soft cut's progress, and the touch waveforms is left to the caller.
    pub fn render_frame(&mut self, now_ms: u64, gaussian_milli: i32) -> (r: Vec<EngineEvent>)
        requires
            old(self).wf(),
        ensures
            final(self).wf(),
            final(self).state().clock.last_tick() == Some(now_ms),
            final(self).state().config == old(self).state().config,
            final(self).state().audio == old(self).state().audio,
            final(self).state().touches == old(self).state().touches,
            final(self).state().texture_search_paths == old(self).state().texture_search_paths,
            final(self).state().events@ == Seq::<EngineEvent>::empty(),
            frame_step(
                old(self).state().transitions,
                final(self).state().transitions,
                delta_spec(old(self).state().clock.last_tick(), now_ms),
                old(self).state().audio.energy_spec() as u32,
                gaussian_milli,
                old(self).state().config,
                old(self).state().events@,
                r@,
            ),
    {
        let delta = self.instance.clock.tick(now_ms);
        let energy = self.instance.audio.energy();
        let mut events: Vec<EngineEvent> = Vec::new();
        std::mem::swap(&mut events, &mut self.instance.events);
        self.instance.transitions.advance(
            delta,
            energy,
            gaussian_milli,
            &self.instance.config,
            &mut events,
        );
        events
    }

    /// Sets the preset that the next automatic (timer- or audio-driven) switch brings
    /// in; a failed compile queues a `PresetSwitchFailed` event instead.
    pub fn cue_preset(&mut self, name: &str, compiled: Result<u64, String>)
        requires
            old(self).wf(),
        ensures
            final(self).wf(),
            final(self).state().config == old(self).state().config,
            final(self).state().clock == old(self).state().clock,
            final(self).state().audio == old(self).state().audio,
            final(self).state().touches == old(self).state().touches,
            final(self).state().texture_search_paths == old(self).state().texture_search_paths,
            final(self).state().transitions.active == old(self).state().transitions.active,
            final(self).state().transitions.state == old(self).state().transitions.state,
            final(self).state().transitions.timer == old(self).state().transitions.timer,
            compiled matches Ok(h) ==> {
                &&& final(self).state().events == old(self).state().events
                &&& final(self).state().transitions.cued matches Some(p)
                &&& p.name@ == name@
                &&& p.handle == h
            },
            compiled matches Err(m) ==> {
                &&& final(self).state().transitions.cued == old(self).state().transitions.cued
                &&& final(self).state().events@.len() == old(self).state().events@.len() + 1
                &&& final(self).state().events@.drop_last() == old(self).state().events@
                &&& final(self).state().events@.last() matches EngineEvent::PresetSwitchFailed {
                    filename,
                    message,
                }
                &&& filename@ == name@
                &&& message == m
            },
    {
        match compiled {
            Ok(handle) => {
                self.instance.transitions.cue(CompiledPreset { name: name.to_owned(), handle });
            },
            Err(message) => {
                self.instance.events.push(
                    EngineEvent::PresetSwitchFailed { filename: name.to_owned(), message },
                );
                assert(self.instance.events@.drop_last() =~= old(self).instance.events@);
            },
        }
    }

    /// The transition under way.
    pub fn transition_state(&self) -> (r: &TransitionState)
        ensures
            *r == self.state().transitions.state,
    {
        &self.instance.transitions.state
    }

    /// The active preset, if any.
    pub fn active_preset(&self) -> (r: &Option<PresetSlot>)
        ensures
            *r == self.state().transitions.active,
    {
        &self.instance.transitions.active
    }

    /// Asks for all textures to be reloaded; the request is handed out with the next
    /// frame's events.
    pub fn reset_textures(&mut self)
        requires
            old(self).wf(),
        ensures
            final(self).wf(),
            final(self).state() == (ProjectMHandle { events: final(self).state().events, ..old(self).state() }),
            final(self).state().events@ == old(self).state().events@.push(
                EngineEvent::TexturesReloadRequested,
            ),
    {
        self.instance.events.push(EngineEvent::TexturesReloadRequested);
    }

    /// Sets the texture search paths to the first `count` of `texture_search_paths`
    /// (all of them when there are fewer) and asks for all textures to be reloaded.
    pub fn set_texture_search_paths(&mut self, texture_search_paths: &[String], count: usize)
        requires
            old(self).wf(),
        ensures
            final(self).wf(),
            final(self).state() == (ProjectMHandle {
                events: final(self).state().events,
                texture_search_paths: final(self).state().texture_search_paths,
                ..old(self).state()
            }),
            final(self).state().texture_search_paths@ == texture_search_paths@.take(
                if count < texture_search_paths@.len() {
                    count as int
                } else {
                    texture_search_paths@.len() as int
                },
            ),
            final(self).state().events@ == old(self).state().events@.push(
                EngineEvent::TexturesReloadRequested,
            ),
    {
        let n: usize = if count < texture_search_paths.len() {
            count
        } else {
            texture_search_paths.len()
        };
        let mut paths: Vec<String> = Vec::new();
        let mut i: usize = 0;
        while i < n
            invariant
                0 <= i <= n,
                n <= texture_search_paths@.len(),
                paths@ == texture_search_paths@.take(i as int),
            decreases n - i,
        {
            paths.push(texture_search_paths[i].clone());
            i = i + 1;
            assert(paths@ =~= texture_search_paths@.take(i as int));
        }
        self.instance.texture_search_paths = paths;
        self.instance.events.push(EngineEvent::TexturesReloadRequested);
    }

    /// Asks for the main texture to be written out after the next frame, to
    /// `output_file` or, without one, to a file named by the drawing backend.
    pub fn write_debug_image_on_next_frame(&mut self, output_file: Option<&str>)
        requires
            old(self).wf(),
        ensures
            final(self).wf(),
            final(self).state() == (ProjectMHandle { events: final(self).state().events, ..old(self).state() }),
            final(self).state().events@.len() == old(self).state().events@.len() + 1,
            final(self).state().events@.drop_last() == old(self).state().events@,
            final(self).state().events@.last() matches EngineEvent::DebugImageRequested { output_file: f }
                && match output_file {
                Some(p) => f matches Some(q) && q@ == p@,
                None => f is None,
            },
    {
        let f: Option<String> = match output_file {
            Some(p) => Some(p.to_owned()),
            None => None,
        };
        self.instance.events.push(EngineEvent::DebugImageRequested { output_file: f });
        assert(self.instance.events@.drop_last() =~= old(self).instance.events@);
    }

    /// The engine's version as (major, minor, patch).
    pub fn get_version_components() -> (r: (i32, i32, i32))
        ensures
            r == version_spec(),
    {
        (4, 0, 0)
    }

    /// The engine's version as text.
    pub fn get_version_string() -> (r: String)
        ensures
            r@ == "4.0.0"@,
    {
        "4.0.0".to_owned()
    }

    /// Largest number of samples the audio buffer keeps; older samples are discarded.
    pub fn pcm_get_max_samples() -> (r: u32)
        ensures
            r == MAX_SAMPLES,
    {
        MAX_SAMPLES
    }

    /// Adds signed 16-bit samples (interleaved LRLR when stereo) to the audio buffer;
    /// mono input is duplicated to both channels, and only the most recent
    /// `pcm_get_max_samples()` samples are kept.
    pub fn pcm_add_int16(&mut self, samples: &[i16], channels: ProjectMChannels)
        requires
            old(self).wf(),
            channels == MONO || channels == STEREO,
            channels == MONO ==> samples@.len() * 2 <= usize::MAX,
        ensures
            final(self).wf(),
            final(self).state() == (ProjectMHandle { audio: final(self).state().audio, ..old(self).state() }),
            final(self).state().audio.cap() == old(self).state().audio.cap(),
            final(self).state().audio@ == keep_last(
                old(self).state().audio@ + stereo_of(samples@, channels),
                old(self).state().audio.cap(),
            ),
            final(self).state().audio@.len() <= final(self).state().audio.cap(),
            samples@.len() == 0 ==> final(self).state().audio@ == old(self).state().audio@,
            samples@.len() == 0 ==> final(self).state().audio.energy_spec()
                == old(self).state().audio.energy_spec(),
    {
        self.instance.audio.push(samples, channels);
    }

    /// Adds unsigned 8-bit samples (silence at 128), scaled to 16 bits, like
    /// `pcm_add_int16`.
    pub fn pcm_add_uint8(&mut self, samples: &[u8], channels: ProjectMChannels)
        requires
            old(self).wf(),
            channels == MONO || channels == STEREO,
            channels == MONO ==> samples@.len() * 2 <= usize::MAX,
        ensures
            final(self).wf(),
            final(self).state() == (ProjectMHandle { audio: final(self).state().audio, ..old(self).state() }),
            final(self).state().audio.cap() == old(self).state().audio.cap(),
            final(self).state().audio@ == keep_last(
                old(self).state().audio@ + stereo_of(samples@.map_values(|x: u8| widen_u8(x)), channels),
                old(self).state().audio.cap(),
            ),
            final(self).state().audio@.len() <= final(self).state().audio.cap(),
            samples@.len() == 0 ==> final(self).state().audio@ == old(self).state().audio@,
            samples@.len() == 0 ==> final(self).state().audio.energy_spec()
                == old(self).state().audio.energy_spec(),
    {
        self.instance.audio.push_u8(samples, channels);
    }

    /// Up to `n` most recent audio samples, oldest first.
    pub fn pcm_window(&self, n: usize) -> (r: Vec<i16>)
        ensures
            r@ == keep_last(self.state().audio@, n as nat),
    {
        self.instance.audio.pop_window(n)
    }

    /// The audio-energy signal that beat-driven hard cuts compare against the beat sensitivity.
    pub fn audio_energy(&self) -> (r: u32)
        ensures
            r == self.state().audio.energy_spec(),
    {
        self.instance.audio.energy()
    }

    /// Puts a waveform of shape `touch_type` at `(x, y)`; a waveform already there is replaced.
    pub fn touch(&mut self, x: i32, y: i32, pressure: i32, touch_type: TouchType)
        requires
            old(self).wf(),
        ensures
            final(self).wf(),
            final(self).state() == (ProjectMHandle { touches: final(self).state().touches, ..old(self).state() }),
            added(
                old(self).state().touches@,
                final(self).state().touches@,
                TouchPoint { x, y, pressure, kind: touch_type },
            ),
    {
        self.instance.touches.add(x, y, pressure, touch_type);
    }

    /// Moves the waveform nearest to `(x, y)` there, to simulate dragging.
    pub fn touch_drag(&mut self, x: i32, y: i32, pressure: i32)
        requires
            old(self).wf(),
        ensures
            final(self).wf(),
            final(self).state() == (ProjectMHandle { touches: final(self).state().touches, ..old(self).state() }),
            dragged(old(self).state().touches@, final(self).state().touches@, x, y, pressure),
    {
        self.instance.touches.drag(x, y, pressure);
    }

    /// Removes the waveform at `(x, y)`, if there is one.
    pub fn touch_destroy(&mut self, x: i32, y: i32)
        requires
            old(self).wf(),
        ensures
            final(self).wf(),
            final(self).state() == (ProjectMHandle { touches: final(self).state().touches, ..old(self).state() }),
            destroyed(old(self).state().touches@, final(self).state().touches@, x, y),
    {
        self.instance.touches.destroy(x, y);
    }

    /// Removes all touch waveforms; preset-defined waveforms are not affected.
    pub fn touch_destroy_all(&mut self)
        requires
            old(self).wf(),
        ensures
            final(self).wf(),
            final(self).state() == (ProjectMHandle { touches: final(self).state().touches, ..old(self).state() }),
            final(self).state().touches@ == Seq::<TouchPoint>::empty(),
    {
        self.instance.touches.destroy_all();
    }

    /// The touch waveforms on screen, in order of creation.
    pub fn touch_points(&self) -> (r: Vec<TouchPoint>)
        ensures
            r@ == self.state().touches@,
    {
        self.instance.touches.points()
    }
}

impl ProjectM {
    /// Returns the audio energy above which a beat asks for a hard cut.
    pub fn get_beat_sensitivity(&self) -> (r: u32)
        ensures
            r == self.state().config.beat_sensitivity,
    {
        self.instance.config.beat_sensitivity
    }

    /// Sets the audio energy above which a beat asks for a hard cut.
    pub fn set_beat_sensitivity(&mut self, sensitivity: u32)
        requires
            old(self).wf(),
        ensures
            final(self).wf(),
            final(self).state() == (ProjectMHandle {
                config: EngineConfig { beat_sensitivity: sensitivity, ..old(self).state().config },
                ..old(self).state()
            }),
    {
        self.instance.config.beat_sensitivity = sensitivity;
    }

    /// Returns the least time in milliseconds a preset plays before a beat may cut it.
    pub fn get_hard_cut_duration(&self) -> (r: u64)
        ensures
            r == self.state().config.hard_cut_duration_ms,
    {
        self.instance.config.hard_cut_duration_ms
    }

    /// Sets the least time in milliseconds a preset plays before a beat may cut it.
    pub fn set_hard_cut_duration(&mut self, millis: u64)
        requires
            old(self).wf(),
        ensures
            final(self).wf(),
            final(self).state() == (ProjectMHandle {
                config: EngineConfig { hard_cut_duration_ms: millis, ..old(self).state().config },
                ..old(self).state()
            }),
    {
        self.instance.config.hard_cut_duration_ms = millis;
    }

    /// Returns whether automatic switches are hard cuts (and beats may ask for them).
    pub fn get_hard_cut_enabled(&self) -> (r: bool)
        ensures
            r == self.state().config.hard_cut_enabled,
    {
        self.instance.config.hard_cut_enabled
    }

    /// Sets whether automatic switches are hard cuts (and beats may ask for them).
    pub fn set_hard_cut_enabled(&mut self, enabled: bool)
        requires
            old(self).wf(),
        ensures
            final(self).wf(),
            final(self).state() == (ProjectMHandle {
                config: EngineConfig { hard_cut_enabled: enabled, ..old(self).state().config },
                ..old(self).state()
            }),
    {
        self.instance.config.hard_cut_enabled = enabled;
    }

    /// Returns the hard cut sensitivity, in hundredths.
    pub fn get_hard_cut_sensitivity(&self) -> (r: u32)
        ensures
            r == self.state().config.hard_cut_sensitivity,
    {
        self.instance.config.hard_cut_sensitivity
    }

    /// Sets the hard cut sensitivity, in hundredths.
    pub fn set_hard_cut_sensitivity(&mut self, sensitivity: u32)
        requires
            old(self).wf(),
        ensures
            final(self).wf(),
            final(self).state() == (ProjectMHandle {
                config: EngineConfig { hard_cut_sensitivity: sensitivity, ..old(self).state().config },
                ..old(self).state()
            }),
    {
        self.instance.config.hard_cut_sensitivity = sensitivity;
    }

    /// Returns the length of a soft cut in milliseconds.
    pub fn get_soft_cut_duration(&self) -> (r: u64)
        ensures
            r == self.state().config.soft_cut_duration_ms,
    {
        self.instance.config.soft_cut_duration_ms
    }

    /// Sets the length of a soft cut in milliseconds.
    pub fn set_soft_cut_duration(&mut self, millis: u64)
        requires
            old(self).wf(),
        ensures
            final(self).wf(),
            final(self).state() == (ProjectMHandle {
                config: EngineConfig { soft_cut_duration_ms: millis, ..old(self).state().config },
                ..old(self).state()
            }),
    {
        self.instance.config.soft_cut_duration_ms = millis;
    }

    /// Returns the time in milliseconds a preset plays before the engine asks to switch.
    pub fn get_preset_duration(&self) -> (r: u64)
        ensures
            r == self.state().config.preset_duration_ms,
    {
        self.instance.config.preset_duration_ms
    }

    /// Sets the time in milliseconds a preset plays before the engine asks to switch.
    pub fn set_preset_duration(&mut self, millis: u64)
        requires
            old(self).wf(),
        ensures
            final(self).wf(),
            final(self).state() == (ProjectMHandle {
                config: EngineConfig { preset_duration_ms: millis, ..old(self).state().config },
                ..old(self).state()
            }),
    {
        self.instance.config.preset_duration_ms = millis;
    }

    /// Returns the frame rate the engine expects to run at.
    pub fn get_fps(&self) -> (r: u32)
        ensures
            r == self.state().config.fps,
    {
        self.instance.config.fps
    }

    /// Sets the frame rate the engine expects to run at.
    pub fn set_fps(&mut self, fps: u32)
        requires
            old(self).wf(),
        ensures
            final(self).wf(),
            final(self).state() == (ProjectMHandle {
                config: EngineConfig { fps: fps, ..old(self).state().config },
                ..old(self).state()
            }),
    {
        self.instance.config.fps = fps;
    }

    /// Returns whether presets that support it correct shapes for the viewport's aspect ratio.
    pub fn get_aspect_correction(&self) -> (r: bool)
        ensures
            r == self.state().config.aspect_correction,
    {
        self.instance.config.aspect_correction
    }

    /// Sets whether presets that support it correct shapes for the viewport's aspect ratio.
    pub fn set_aspect_correction(&mut self, enabled: bool)
        requires
            old(self).wf(),
        ensures
            final(self).wf(),
            final(self).state() == (ProjectMHandle {
                config: EngineConfig { aspect_correction: enabled, ..old(self).state().config },
                ..old(self).state()
            }),
    {
        self.instance.config.aspect_correction = enabled;
    }

    /// Returns the spread (in hundredths) of the random change to each preset's display time.
    pub fn get_preset_duration_variance(&self) -> (r: u32)
        ensures
            r == self.state().config.duration_variance,
    {
        self.instance.config.duration_variance
    }

    /// Sets the spread (in hundredths) of the random change to each preset's display time.
    pub fn set_preset_duration_variance(&mut self, variance: u32)
        requires
            old(self).wf(),
        ensures
            final(self).wf(),
            final(self).state() == (ProjectMHandle {
                config: EngineConfig { duration_variance: variance, ..old(self).state().config },
                ..old(self).state()
            }),
    {
        self.instance.config.duration_variance = variance;
    }

    /// Returns whether the preset is locked: no timer- or audio-driven switch is made while it is.
    pub fn get_preset_locked(&self) -> (r: bool)
        ensures
            r == self.state().config.preset_locked,
    {
        self.instance.config.preset_locked
    }

    /// Sets whether the preset is locked: no timer- or audio-driven switch is made while it is.
    pub fn set_preset_locked(&mut self, lock: bool)
        requires
            old(self).wf(),
        ensures
            final(self).wf(),
            final(self).state() == (ProjectMHandle {
                config: EngineConfig { preset_locked: lock, ..old(self).state().config },
                ..old(self).state()
            }),
    {
        self.instance.config.preset_locked = lock;
    }

    /// Returns the per-pixel mesh size as (width, height).
    pub fn get_mesh_size(&self) -> (r: (usize, usize))
        ensures
            r == (self.state().config.mesh_x, self.state().config.mesh_y),
    {
        (self.instance.config.mesh_x, self.instance.config.mesh_y)
    }

    /// Sets the per-pixel mesh size; every preset in play has its warp state laid out
    /// anew on the new mesh.
    pub fn set_mesh_size(&mut self, mesh_x: usize, mesh_y: usize)
        requires
            old(self).wf(),
        ensures
            final(self).wf(),
            final(self).state() == (ProjectMHandle {
                config: EngineConfig { mesh_x, mesh_y, ..old(self).state().config },
                transitions: final(self).state().transitions,
                ..old(self).state()
            }),
            meshes_reset(old(self).state().transitions, final(self).state().transitions, mesh_x, mesh_y),
    {
        self.instance.config.mesh_x = mesh_x;
        self.instance.config.mesh_y = mesh_y;
        self.instance.transitions.reset_mesh(mesh_x, mesh_y);
    }

    /// Returns the viewport size in pixels as (width, height).
    pub fn get_window_size(&self) -> (r: (usize, usize))
        ensures
            r == (self.state().config.window_width, self.state().config.window_height),
    {
        (self.instance.config.window_width, self.instance.config.window_height)
    }

    /// Sets the viewport size in pixels.
    pub fn set_window_size(&mut self, width: usize, height: usize)
        requires
            old(self).wf(),
        ensures
            final(self).wf(),
            final(self).state() == (ProjectMHandle {
                config: EngineConfig { window_width: width, window_height: height, ..old(self).state().config },
                ..old(self).state()
            }),
    {
        self.instance.config.window_width = width;
        self.instance.config.window_height = height;
    }
}

impl Default for ProjectM {
    fn default() -> (r: Self)
        ensures
            r.wf(),
            r.state().config == default_config(),
            r.state().audio@ == Seq::<i16>::empty(),
            r.state().transitions.active is None,
            r.state().transitions.state is Idle,
            r.state().touches@ == Seq::<TouchPoint>::empty(),
            r.state().events@ == Seq::<EngineEvent>::empty(),
    {
        Self::new()
    }
}

/// `s` holds the preset named `name` with handle `h`, on the mesh that `cfg` sets.
pub open spec fn slot_holds(s: PresetSlot, name: Seq<char>, h: u64, cfg: EngineConfig) -> bool {
    &&& s.preset.name@ == name
    &&& s.preset.handle == h
    &&& s.mesh_x == cfg.mesh_x
    &&& s.mesh_y == cfg.mesh_y
}

/// What an explicit preset switch does to the engine state.
pub open spec fn load_step(
    pre: ProjectMHandle,
    post: ProjectMHandle,
    name: Seq<char>,
    compiled: Result<u64, String>,
    smooth: bool,
) -> bool {
    &&& post.config == pre.config
    &&& post.clock == pre.clock
    &&& post.audio == pre.audio
    &&& post.touches == pre.touches
    &&& post.texture_search_paths == pre.texture_search_paths
    &&& post.transitions.cued == pre.transitions.cued
    &&& match compiled {
        Ok(h) => {
            &&& post.events == pre.events
            &&& if smooth {
                &&& post.transitions.active == pre.transitions.active
                &&& post.transitions.timer == pre.transitions.timer
                &&& post.transitions.state matches TransitionState::SoftCutInProgress {
                    incoming,
                    elapsed_ms,
                    duration_ms,
                }
                &&& slot_holds(incoming, name, h, pre.config)
                &&& elapsed_ms == 0
                &&& duration_ms == pre.config.soft_cut_duration_ms
            } else {
                &&& post.transitions.active matches Some(s)
                &&& slot_holds(s, name, h, pre.config)
                &&& post.transitions.state is Idle
                &&& post.transitions.timer == fresh_timer()
            }
        },
        Err(m) => {
            &&& if smooth {
                post.transitions == pre.transitions
            } else {
                &&& post.transitions.active == pre.transitions.active
                &&& post.transitions.state is Idle
                &&& post.transitions.timer == fresh_timer()
            }
            &&& post.events@.len() == pre.events@.len() + 1
            &&& post.events@.drop_last() == pre.events@
            &&& post.events@.last() matches EngineEvent::PresetSwitchFailed { filename, message }
            &&& filename@ == name
            &&& message == m
        },
    }
}

/// An explicit hard-cut request, locked or not, is complete when the call returns, and
/// the next frame ends idle on the same active preset: the requested one when it was
/// compiled; otherwise the one before, with any soft cut under way ended and the
/// failure event among the frame's events.
pub proof fn hard_cut_request_lands(
    pre: ProjectMHandle,
    mid: ProjectMHandle,
    post: TransitionController,
    name: Seq<char>,
    compiled: Result<u64, String>,
    delta: u64,
    energy: u32,
    gaussian_milli: i32,
    ev_post: Seq<EngineEvent>,
)
    requires
        load_step(pre, mid, name, compiled, false),
        frame_step(mid.transitions, post, delta, energy, gaussian_milli, mid.config, mid.events@, ev_post),
    ensures
        mid.transitions.state is Idle,
        post.state is Idle,
        post.active == mid.transitions.active,
        ev_post == mid.events@,
        compiled matches Ok(h) ==> post.active matches Some(s) && slot_holds(s, name, h, pre.config),
        compiled matches Err(m) ==> {
            &&& post.active == pre.transitions.active
            &&& ev_post.len() > pre.events@.len()
            &&& ev_post[pre.events@.len() as int] matches EngineEvent::PresetSwitchFailed {
                filename,
                message,
            }
            &&& filename@ == name
            &&& message == m
        },
{
    assert(!mid.transitions.auto_switch_due(delta, energy, gaussian_milli, mid.config));
    if compiled is Err {
        assert(mid.events@[pre.events@.len() as int] == mid.events@.last());
    }
}

/// The events a frame hands out hold exactly one switch request, the last one, when an
/// automatic switch is due on it, and none otherwise: the request observer is called at
/// most once per frame.
pub proof fn frame_asks_at_most_once(
    pre: ProjectMHandle,
    post: TransitionController,
    delta: u64,
    energy: u32,
    gaussian_milli: i32,
    r: Seq<EngineEvent>,
)
    requires
        pre.wf(),
        frame_step(pre.transitions, post, delta, energy, gaussian_milli, pre.config, pre.events@, r),
    ensures
        pre.transitions.auto_switch_due(delta, energy, gaussian_milli, pre.config) ==> {
            &&& r.len() >= 1
            &&& r.last() == (EngineEvent::PresetSwitchRequested { is_hard_cut: pre.config.hard_cut_enabled })
            &&& forall|i: int| 0 <= i < r.len() - 1 ==> !(#[trigger] r[i] is PresetSwitchRequested)
        },
        !pre.transitions.auto_switch_due(delta, energy, gaussian_milli, pre.config) ==> forall|i: int|
            0 <= i < r.len() ==> !(#[trigger] r[i] is PresetSwitchRequested),
{
    if pre.transitions.auto_switch_due(delta, energy, gaussian_milli, pre.config) {
        assert forall|i: int| 0 <= i < r.len() - 1 implies !(#[trigger] r[i] is PresetSwitchRequested) by {
            assert(r[i] == pre.events@[i]);
        }
    }
}

/// While presets are locked, a frame of an idle engine makes no switch: it stays idle
/// with the same active preset, and the events it hands out hold no switch request.
pub proof fn locked_engine_asks_for_no_switch(
    pre: ProjectMHandle,
    post: TransitionController,
    delta: u64,
    energy: u32,
    gaussian_milli: i32,
    r: Seq<EngineEvent>,
)
    requires
        pre.wf(),
        pre.config.preset_locked,
        pre.transitions.state is Idle,
        frame_step(pre.transitions, post, delta, energy, gaussian_milli, pre.config, pre.events@, r),
    ensures
        post.state is Idle,
        post.active == pre.transitions.active,
        forall|i: int| 0 <= i < r.len() ==> !(#[trigger] r[i] is PresetSwitchRequested),
{
    locked_frame_makes_no_switch(pre.transitions, post, delta, energy, gaussian_milli, pre.config, pre.events@, r);
}

} // verus!
