use vstd::prelude::*;
use crate::config::{EngineConfig, requested_duration, compute_requested_duration};

verus! {

/// A preset as the external compiler handed it over: where it came from and the
/// compiler's handle to the compiled program.
#[derive(Debug, PartialEq, Eq)]
pub struct CompiledPreset {
    pub name: String,
    pub handle: u64,
}

/// A preset in play, with the mesh its per-pixel warp state is laid out on.
#[derive(Debug, PartialEq, Eq)]
pub struct PresetSlot {
    pub preset: CompiledPreset,
    pub mesh_x: usize,
    pub mesh_y: usize,
}

/// Where the controller stands between the active preset and an incoming one. A hard
/// cut completes within the call that makes it, so it has no state of its own.
#[derive(Debug, PartialEq, Eq)]
pub enum TransitionState {
    Idle,
    /// The blend shows `elapsed_ms / duration_ms` of the incoming preset.
    SoftCutInProgress { incoming: PresetSlot, elapsed_ms: u64, duration_ms: u64 },
}

/// Time the active preset has played, and how long it is meant to play (`None` when
/// the timer was restarted between frames: the next frame draws the display time and
/// starts counting from there).
#[derive(Debug, Clone, Copy, PartialEq, Eq)]
pub struct DurationTimer {
    pub target_ms: Option<u64>,
    pub elapsed_ms: u64,
}

/// Notifications the engine hands to its observers at the end of a frame.
#[derive(Debug, PartialEq, Eq)]
pub enum EngineEvent {
    PresetSwitchRequested { is_hard_cut: bool },
    PresetSwitchFailed { filename: String, message: String },
    DebugImageRequested { output_file: Option<String> },
    TexturesReloadRequested,
}

pub open spec fn slot_for(p: CompiledPreset, cfg: EngineConfig) -> PresetSlot {
    PresetSlot { preset: p, mesh_x: cfg.mesh_x, mesh_y: cfg.mesh_y }
}

pub open spec fn fresh_timer() -> DurationTimer {
    DurationTimer { target_ms: None, elapsed_ms: 0 }
}

/// The timer of a preset that became active on a frame drawn with `gaussian_milli`.
pub open spec fn started_timer(cfg: EngineConfig, gaussian_milli: i32) -> DurationTimer {
    DurationTimer {
        target_ms: Some(requested_duration(cfg.preset_duration_ms, cfg.duration_variance, gaussian_milli)),
        elapsed_ms: 0,
    }
}

pub open spec fn sat_add(a: u64, b: u64) -> u64 {
    if a + b > u64::MAX {
        u64::MAX
    } else {
        (a + b) as u64
    }
}

/// Blend time after one more frame of `delta`, stopping at `d`.
pub open spec fn soft_step(e: u64, d: u64, delta: u64) -> u64 {
    if e + delta >= d {
        d
    } else {
        (e + delta) as u64
    }
}

/// Blend time after `n` frames of `delta` each.
pub open spec fn soft_after(e: u64, d: u64, delta: u64, n: nat) -> u64
    decreases n,
{
    if n == 0 {
        e
    } else {
        soft_after(soft_step(e, d, delta), d, delta, (n - 1) as nat)
    }
}

/// Active preset and state after a soft cut at `e` of `d` advances by `delta`:
/// once the blend is complete the incoming preset becomes the active one.
pub open spec fn soft_advanced(
    active: Option<PresetSlot>,
    incoming: PresetSlot,
    e: u64,
    d: u64,
    delta: u64,
) -> (Option<PresetSlot>, TransitionState) {
    let e2 = soft_step(e, d, delta);
    if e2 >= d {
        (Some(incoming), TransitionState::Idle)
    } else {
        (active, TransitionState::SoftCutInProgress { incoming, elapsed_ms: e2, duration_ms: d })
    }
}

/// What one frame of the state machine does (see `TransitionController::advance`):
/// `pre`/`post` are the controller before and after, `ev_pre`/`ev_post` the event queue.
pub open spec fn frame_step(
    pre: TransitionController,
    post: TransitionController,
    delta: u64,
    energy: u32,
    gaussian_milli: i32,
    cfg: EngineConfig,
    ev_pre: Seq<EngineEvent>,
    ev_post: Seq<EngineEvent>,
) -> bool {
    let due = pre.auto_switch_due(delta, energy, gaussian_milli, cfg);
    &&& ev_post == if due {
        ev_pre.push(EngineEvent::PresetSwitchRequested { is_hard_cut: cfg.hard_cut_enabled })
    } else {
        ev_pre
    }
    // a soft cut advances its blend; once it is full the incoming preset becomes active
    // and its display time is drawn on this frame
    &&& (pre.state matches TransitionState::SoftCutInProgress { incoming, elapsed_ms, duration_ms }
        ==> {
        &&& (post.active, post.state) == soft_advanced(
            pre.active,
            incoming,
            elapsed_ms,
            duration_ms,
            delta,
        )
        &&& post.cued == pre.cued
        &&& post.timer == if soft_step(elapsed_ms, duration_ms, delta) < duration_ms {
            pre.ticked_timer(delta, cfg, gaussian_milli)
        } else {
            started_timer(cfg, gaussian_milli)
        }
    })
    // an idle controller with nothing due only runs its timer
    &&& (pre.state is Idle && !due ==> {
        &&& post.state is Idle
        &&& post.active == pre.active
        &&& post.cued == pre.cued
        &&& post.timer == pre.ticked_timer(delta, cfg, gaussian_milli)
    })
    // an automatic switch restarts the timer and brings in the cued preset, if there
    // is one: at once by a hard cut, or by a soft cut that starts at zero
    &&& (due ==> {
        &&& post.cued is None
        &&& post.timer == started_timer(cfg, gaussian_milli)
        &&& (pre.cued is None ==> post.state is Idle && post.active == pre.active)
        &&& (pre.cued matches Some(p) ==> if cfg.hard_cut_enabled {
            post.state is Idle && post.active == Some(slot_for(p, cfg))
        } else {
            &&& post.active == pre.active
            &&& post.state == (TransitionState::SoftCutInProgress {
                incoming: slot_for(p, cfg),
                elapsed_ms: 0,
                duration_ms: cfg.soft_cut_duration_ms,
            })
        })
    })
}

/// `post` is `pre` with every preset in play laid out anew on a `mesh_x` by `mesh_y` mesh.
pub open spec fn meshes_reset(
    pre: TransitionController,
    post: TransitionController,
    mesh_x: usize,
    mesh_y: usize,
) -> bool {
    &&& post.timer == pre.timer
    &&& post.cued == pre.cued
    &&& post.active == match pre.active {
        Some(s) => Some(PresetSlot { preset: s.preset, mesh_x, mesh_y }),
        None => None,
    }
    &&& post.state == match pre.state {
        TransitionState::Idle => TransitionState::Idle,
        TransitionState::SoftCutInProgress { incoming, elapsed_ms, duration_ms } =>
            TransitionState::SoftCutInProgress {
            incoming: PresetSlot { preset: incoming.preset, mesh_x, mesh_y },
            elapsed_ms,
            duration_ms,
        },
    }
}

/// The one active preset (if any), the transition under way, the active preset's
/// duration timer, and the preset that the next automatic switch brings in.
#[derive(Debug)]
pub struct TransitionController {
    pub active: Option<PresetSlot>,
    pub state: TransitionState,
    pub timer: DurationTimer,
    pub cued: Option<CompiledPreset>,
}

impl TransitionController {
    pub open spec fn wf(&self) -> bool {
        self.state matches TransitionState::SoftCutInProgress { elapsed_ms, duration_ms, .. }
            ==> elapsed_ms <= duration_ms
    }

    /// The display time the timer runs against on a frame drawn with `gaussian_milli`.
    pub open spec fn timer_target(&self, cfg: EngineConfig, gaussian_milli: i32) -> u64 {
        match self.timer.target_ms {
            Some(t) => t,
            None => requested_duration(cfg.preset_duration_ms, cfg.duration_variance, gaussian_milli),
        }
    }

    /// Time the active preset has played after this frame. A timer restarted between
    /// frames starts on this frame: time from before the switch does not count.
    pub open spec fn timer_after(&self, delta: u64) -> u64 {
        match self.timer.target_ms {
            Some(_) => sat_add(self.timer.elapsed_ms, delta),
            None => 0,
        }
    }

    pub open spec fn timer_expired(&self, delta: u64, cfg: EngineConfig, gaussian_milli: i32) -> bool {
        self.timer_after(delta) >= self.timer_target(cfg, gaussian_milli)
    }

    pub open spec fn beat_cut_due(&self, delta: u64, energy: u32, cfg: EngineConfig) -> bool {
        &&& cfg.hard_cut_enabled
        &&& energy > cfg.beat_sensitivity
        &&& self.timer_after(delta) >= cfg.hard_cut_duration_ms
    }

    /// An automatic (timer- or audio-driven) switch is made on this frame. None is made
    /// on the frame that starts a timer restarted by an explicit switch.
    pub open spec fn auto_switch_due(
        &self,
        delta: u64,
        energy: u32,
        gaussian_milli: i32,
        cfg: EngineConfig,
    ) -> bool {
        &&& self.state is Idle
        &&& !cfg.preset_locked
        &&& self.timer.target_ms is Some
        &&& (self.timer_expired(delta, cfg, gaussian_milli) || self.beat_cut_due(delta, energy, cfg))
    }

    pub open spec fn ticked_timer(&self, delta: u64, cfg: EngineConfig, gaussian_milli: i32) -> DurationTimer {
        DurationTimer {
            target_ms: Some(self.timer_target(cfg, gaussian_milli)),
            elapsed_ms: self.timer_after(delta),
        }
    }

    pub fn new() -> (r: TransitionController)
        ensures
            r.wf(),
            r.active is None,
            r.state is Idle,
            r.timer == fresh_timer(),
            r.cued is None,
    {
        TransitionController {
            active: None,
            state: TransitionState::Idle,
            timer: DurationTimer { target_ms: None, elapsed_ms: 0 },
            cued: None,
        }
    }

    fn activate(&mut self, slot: PresetSlot, timer: DurationTimer)
        ensures
            final(self).active == Some(slot),
            final(self).timer == timer,
            final(self).state == old(self).state,
            final(self).cued == old(self).cued,
    {
        self.active = Some(slot);
        self.timer = timer;
    }

    /// An explicit switch to `preset`, made even when locked. A soft cut (`smooth`)
    /// starts at zero and replaces any soft cut under way. A hard cut makes `preset`
    /// the active one at once, drops any soft cut under way and restarts the duration
    /// timer, whose display time the next frame draws.
    pub fn request(&mut self, preset: CompiledPreset, smooth: bool, cfg: &EngineConfig)
        requires
            old(self).wf(),
        ensures
            final(self).wf(),
            final(self).cued == old(self).cued,
            smooth ==> {
                &&& final(self).active == old(self).active
                &&& final(self).timer == old(self).timer
                &&& final(self).state == (TransitionState::SoftCutInProgress {
                    incoming: slot_for(preset, *cfg),
                    elapsed_ms: 0,
                    duration_ms: cfg.soft_cut_duration_ms,
                })
            },
            !smooth ==> {
                &&& final(self).active == Some(slot_for(preset, *cfg))
                &&& final(self).state is Idle
                &&& final(self).timer == fresh_timer()
            },
    {
        let slot = PresetSlot { preset, mesh_x: cfg.mesh_x, mesh_y: cfg.mesh_y };
        if smooth {
            self.state = TransitionState::SoftCutInProgress {
                incoming: slot,
                elapsed_ms: 0,
                duration_ms: cfg.soft_cut_duration_ms,
            };
        } else {
            self.state = TransitionState::Idle;
            self.activate(slot, DurationTimer { target_ms: None, elapsed_ms: 0 });
        }
    }

    /// An explicit hard cut whose preset could not be compiled: any soft cut under way
    /// is dropped, the active preset stays, and the duration timer restarts.
    pub fn abandon(&mut self)
        requires
            old(self).wf(),
        ensures
            final(self).wf(),
            final(self).active == old(self).active,
            final(self).cued == old(self).cued,
            final(self).state is Idle,
            final(self).timer == fresh_timer(),
    {
        self.state = TransitionState::Idle;
        self.timer = DurationTimer { target_ms: None, elapsed_ms: 0 };
    }

    /// Sets the preset that the next automatic switch brings in.
    pub fn cue(&mut self, preset: CompiledPreset)
        ensures
            final(self).cued == Some(preset),
            final(self).active == old(self).active,
            final(self).state == old(self).state,
            final(self).timer == old(self).timer,
    {
        self.cued = Some(preset);
    }

    /// Resets the mesh of every preset in play to `mesh_x` by `mesh_y`.
    pub fn reset_mesh(&mut self, mesh_x: usize, mesh_y: usize)
        requires
            old(self).wf(),
        ensures
            final(self).wf(),
            final(self).timer == old(self).timer,
            final(self).cued == old(self).cued,
            meshes_reset(*old(self), *final(self), mesh_x, mesh_y),
    {
        let mut active: Option<PresetSlot> = None;
        std::mem::swap(&mut active, &mut self.active);
        match active {
            Some(s) => {
                self.active = Some(PresetSlot { preset: s.preset, mesh_x, mesh_y });
            },
            None => {},
        }
        let mut state = TransitionState::Idle;
        std::mem::swap(&mut state, &mut self.state);
        match state {
            TransitionState::Idle => {},
            TransitionState::SoftCutInProgress { incoming, elapsed_ms, duration_ms } => {
                self.state = TransitionState::SoftCutInProgress {
                    incoming: PresetSlot { preset: incoming.preset, mesh_x, mesh_y },
                    elapsed_ms,
                    duration_ms,
                };
            },
        }
    }

    /// Advances a soft cut by `delta`, making the incoming preset active, with the
    /// timer `started`, once complete.
    fn advance_soft(&mut self, incoming: PresetSlot, e: u64, d: u64, delta: u64, started: DurationTimer)
        requires
            e <= d,
        ensures
            (final(self).active, final(self).state) == soft_advanced(old(self).active, incoming, e, d, delta),
            soft_step(e, d, delta) >= d ==> final(self).timer == started,
            soft_step(e, d, delta) < d ==> final(self).timer == old(self).timer,
            final(self).cued == old(self).cued,
    {
        let e2: u64 = if delta >= d - e {
            d
        } else {
            e + delta
        };
        if e2 >= d {
            self.state = TransitionState::Idle;
            self.activate(incoming, started);
        } else {
            self.state = TransitionState::SoftCutInProgress {
                incoming,
                elapsed_ms: e2,
                duration_ms: d,
            };
        }
    }

    /// One frame of the state machine, `delta` milliseconds after the previous one:
    /// the duration timer runs, a soft cut advances its blend, and an unlocked idle
    /// controller makes an automatic switch when the timer has expired or a beat asks
    /// for a hard cut. `gaussian_milli` is the normal draw for the display time of a
    /// preset that becomes active on this frame (or became active since the last one).
    pub fn advance(
        &mut self,
        delta: u64,
        energy: u32,
        gaussian_milli: i32,
        cfg: &EngineConfig,
        events: &mut Vec<EngineEvent>,
    )
        requires
            old(self).wf(),
        ensures
            final(self).wf(),
            frame_step(*old(self), *final(self), delta, energy, gaussian_milli, *cfg, old(events)@, final(events)@),
    {
        let drawn = compute_requested_duration(
            cfg.preset_duration_ms,
            cfg.duration_variance,
            gaussian_milli,
        );
        let started = DurationTimer { target_ms: Some(drawn), elapsed_ms: 0 };
        let running = self.timer.target_ms.is_some();
        let target: u64 = match self.timer.target_ms {
            Some(t) => t,
            None => drawn,
        };
        let elapsed: u64 = if running {
            self.timer.elapsed_ms.saturating_add(delta)
        } else {
            0
        };
        self.timer = DurationTimer { target_ms: Some(target), elapsed_ms: elapsed };
        let mut state = TransitionState::Idle;
        std::mem::swap(&mut state, &mut self.state);
        match state {
            TransitionState::SoftCutInProgress { incoming, elapsed_ms, duration_ms } => {
                self.advance_soft(incoming, elapsed_ms, duration_ms, delta, started);
            },
            TransitionState::Idle => {
                let due = !cfg.preset_locked && running && (elapsed >= target || (cfg.hard_cut_enabled
                    && energy > cfg.beat_sensitivity && elapsed >= cfg.hard_cut_duration_ms));
                if due {
                    events.push(
                        EngineEvent::PresetSwitchRequested { is_hard_cut: cfg.hard_cut_enabled },
                    );
                    self.timer = started;
                    let mut cued: Option<CompiledPreset> = None;
                    std::mem::swap(&mut cued, &mut self.cued);
                    match cued {
                        None => {},
                        Some(p) => {
                            let slot = PresetSlot { preset: p, mesh_x: cfg.mesh_x, mesh_y: cfg.mesh_y };
                            if cfg.hard_cut_enabled {
                                self.activate(slot, started);
                            } else {
                                self.state = TransitionState::SoftCutInProgress {
                                    incoming: slot,
                                    elapsed_ms: 0,
                                    duration_ms: cfg.soft_cut_duration_ms,
                                };
                            }
                        },
                    }
                }
            },
        }
    }
}

/// Across one frame a soft cut never goes back: it either goes on with the same
/// incoming preset, the same length and a blend time no smaller and never past that
/// length, or it is complete and the incoming preset is the active one.
pub proof fn soft_cut_never_regresses(
    pre: TransitionController,
    post: TransitionController,
    delta: u64,
    energy: u32,
    gaussian_milli: i32,
    cfg: EngineConfig,
    ev_pre: Seq<EngineEvent>,
    ev_post: Seq<EngineEvent>,
)
    requires
        pre.wf(),
        pre.state is SoftCutInProgress,
        frame_step(pre, post, delta, energy, gaussian_milli, cfg, ev_pre, ev_post),
    ensures
        post.state matches TransitionState::SoftCutInProgress { incoming, elapsed_ms, duration_ms }
            ==> {
            &&& incoming == pre.state->SoftCutInProgress_incoming
            &&& duration_ms == pre.state->SoftCutInProgress_duration_ms
            &&& pre.state->SoftCutInProgress_elapsed_ms <= elapsed_ms <= duration_ms
        },
        post.state is Idle ==> post.active == Some(pre.state->SoftCutInProgress_incoming),
        ev_post == ev_pre,
{
}

/// With a constant frame time `delta > 0`, a soft cut of `d` milliseconds that starts
/// at zero is complete (its blend time is exactly `d`) after `ceil(d / delta)` frames.
pub proof fn soft_cut_completes(d: u64, delta: u64)
    requires
        delta > 0,
    ensures
        soft_after(0, d, delta, ((d + delta - 1) / (delta as int)) as nat) == d,
{
    let n = ((d + delta - 1) / (delta as int)) as nat;
    lemma_ceil_frames_cover(d, delta);
    lemma_soft_after_from(0, d, delta, n);
}

/// While presets are locked, a frame that starts idle makes no switch: the controller
/// stays idle with the same active and cued presets and queues no switch request.
pub proof fn locked_frame_makes_no_switch(
    pre: TransitionController,
    post: TransitionController,
    delta: u64,
    energy: u32,
    gaussian_milli: i32,
    cfg: EngineConfig,
    ev_pre: Seq<EngineEvent>,
    ev_post: Seq<EngineEvent>,
)
    requires
        cfg.preset_locked,
        pre.state is Idle,
        frame_step(pre, post, delta, energy, gaussian_milli, cfg, ev_pre, ev_post),
    ensures
        post.state is Idle,
        post.active == pre.active,
        post.cued == pre.cued,
        ev_post == ev_pre,
{
}

proof fn lemma_soft_after_from(e: u64, d: u64, delta: u64, n: nat)
    requires
        e <= d,
        e + n * delta >= d,
    ensures
        soft_after(e, d, delta, n) == d,
    decreases n,
{
    if n == 0 {
        assert(n * delta == 0) by (nonlinear_arith)
            requires
                n == 0,
        ;
    } else {
        let e2 = soft_step(e, d, delta);
        assert(e + n * delta == e + delta + (n - 1) * delta) by (nonlinear_arith)
            requires
                n >= 1,
        ;
        assert(soft_after(e, d, delta, n) == soft_after(e2, d, delta, (n - 1) as nat));
        if e2 == d {
            lemma_soft_after_fixed(d, delta, (n - 1) as nat);
        } else {
            lemma_soft_after_from(e2, d, delta, (n - 1) as nat);
        }
    }
}

proof fn lemma_soft_after_fixed(d: u64, delta: u64, n: nat)
    ensures
        soft_after(d, d, delta, n) == d,
    decreases n,
{
    if n > 0 {
        lemma_soft_after_fixed(d, delta, (n - 1) as nat);
    }
}

proof fn lemma_ceil_frames_cover(d: u64, delta: u64)
    requires
        delta > 0,
    ensures
        ((d + delta - 1) / (delta as int)) * delta >= d,
{
    let k = (d + delta - 1) / (delta as int);
    let r = (d + delta - 1) % (delta as int);
    assert(k * delta + r == d + delta - 1) by (nonlinear_arith)
        requires
            delta > 0,
            k == (d + delta - 1) / (delta as int),
            r == (d + delta - 1) % (delta as int),
    ;
    assert(r < delta) by (nonlinear_arith)
        requires
            delta > 0,
            r == (d + delta - 1) % (delta as int),
    ;
}

/// Over consecutive frames of constant time `delta > 0`, a soft cut of `d > 0`
/// milliseconds that starts at zero goes on with the same incoming preset and a blend
/// time of `soft_after(0, d, delta, j)` after `j` frames, until it completes and the
/// incoming preset is the active one, which happens within `ceil(d / delta)` frames.
/// `states[j]` is the controller after `j` frames; `events[j]` the queue then.
pub proof fn soft_cut_lands_within(
    states: Seq<TransitionController>,
    energies: Seq<u32>,
    draws: Seq<i32>,
    events: Seq<Seq<EngineEvent>>,
    cfg: EngineConfig,
    incoming: PresetSlot,
    d: u64,
    delta: u64,
)
    requires
        delta > 0,
        d > 0,
        states.len() == (d + delta - 1) / (delta as int) + 1,
        energies.len() + 1 >= states.len(),
        draws.len() + 1 >= states.len(),
        events.len() == states.len(),
        states[0].state == (TransitionState::SoftCutInProgress { incoming, elapsed_ms: 0, duration_ms: d }),
        forall|j: int|
            0 <= j < states.len() - 1 ==> frame_step(
                #[trigger] states[j],
                states[j + 1],
                delta,
                energies[j],
                draws[j],
                cfg,
                events[j],
                events[j + 1],
            ),
    ensures
        exists|k: int|
            1 <= k < states.len() && states[k].state is Idle && states[k].active == Some(incoming)
                && forall|j: int|
                0 <= j < k ==> (#[trigger] states[j]).state == (TransitionState::SoftCutInProgress {
                    incoming,
                    elapsed_ms: soft_after(0, d, delta, j as nat),
                    duration_ms: d,
                }),
{
    soft_cut_completes(d, delta);
    lemma_soft_run(states, energies, draws, events, cfg, incoming, d, delta, 0);
}

proof fn lemma_soft_run(
    states: Seq<TransitionController>,
    energies: Seq<u32>,
    draws: Seq<i32>,
    events: Seq<Seq<EngineEvent>>,
    cfg: EngineConfig,
    incoming: PresetSlot,
    d: u64,
    delta: u64,
    j: int,
)
    requires
        delta > 0,
        states.len() == (d + delta - 1) / (delta as int) + 1,
        soft_after(0, d, delta, (states.len() - 1) as nat) == d,
        energies.len() + 1 >= states.len(),
        draws.len() + 1 >= states.len(),
        events.len() == states.len(),
        0 <= j < states.len(),
        soft_after(0, d, delta, j as nat) < d,
        states[j].state == (TransitionState::SoftCutInProgress {
            incoming,
            elapsed_ms: soft_after(0, d, delta, j as nat),
            duration_ms: d,
        }),
        forall|i: int|
            0 <= i < states.len() - 1 ==> frame_step(
                #[trigger] states[i],
                states[i + 1],
                delta,
                energies[i],
                draws[i],
                cfg,
                events[i],
                events[i + 1],
            ),
    ensures
        exists|k: int|
            j < k < states.len() && states[k].state is Idle && states[k].active == Some(incoming)
                && forall|i: int|
                j <= i < k ==> (#[trigger] states[i]).state == (TransitionState::SoftCutInProgress {
                    incoming,
                    elapsed_ms: soft_after(0, d, delta, i as nat),
                    duration_ms: d,
                }),
    decreases states.len() - j,
{
    let n = states.len() - 1;
    if j == n {
        assert(false);
    }
    let e = soft_after(0, d, delta, j as nat);
    lemma_soft_after_succ(0, d, delta, j as nat);
    let e2 = soft_after(0, d, delta, (j + 1) as nat);
    assert(e2 == soft_step(e, d, delta));
    assert(frame_step(states[j], states[j + 1], delta, energies[j], draws[j], cfg, events[j], events[j + 1]));
    if e2 >= d {
        let k = j + 1;
        assert(states[k].state is Idle && states[k].active == Some(incoming));
    } else {
        lemma_soft_run(states, energies, draws, events, cfg, incoming, d, delta, j + 1);
        let k = choose|k: int|
            j + 1 < k < states.len() && states[k].state is Idle && states[k].active == Some(incoming)
                && forall|i: int|
                j + 1 <= i < k ==> (#[trigger] states[i]).state == (TransitionState::SoftCutInProgress {
                    incoming,
                    elapsed_ms: soft_after(0, d, delta, i as nat),
                    duration_ms: d,
                });
        assert forall|i: int| j <= i < k implies (#[trigger] states[i]).state == (
        TransitionState::SoftCutInProgress {
            incoming,
            elapsed_ms: soft_after(0, d, delta, i as nat),
            duration_ms: d,
        }) by {}
    }
}

proof fn lemma_soft_after_succ(e: u64, d: u64, delta: u64, n: nat)
    ensures
        soft_after(e, d, delta, n + 1) == soft_step(soft_after(e, d, delta, n), d, delta),
    decreases n,
{
    if n > 0 {
        lemma_soft_after_succ(soft_step(e, d, delta), d, delta, (n - 1) as nat);
        assert(soft_after(e, d, delta, n + 1) == soft_after(soft_step(e, d, delta), d, delta, n));
        assert(soft_after(e, d, delta, n) == soft_after(soft_step(e, d, delta), d, delta, (n - 1) as nat));
    } else {
        assert(soft_after(e, d, delta, 1) == soft_after(soft_step(e, d, delta), d, delta, 0));
    }
}

} // verus!
