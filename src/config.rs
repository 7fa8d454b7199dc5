use vstd::prelude::*;

verus! {

/// The engine's scalar settings. Durations are whole milliseconds; sensitivities and
/// the duration variance are hundredths (100 stands for 1.0).
#[derive(Debug, Clone, Copy, PartialEq, Eq)]
pub struct EngineConfig {
    /// Audio energy above which a beat asks for a hard cut.
    pub beat_sensitivity: u32,
    /// Least time a preset plays before a beat may cut it.
    pub hard_cut_duration_ms: u64,
    pub hard_cut_enabled: bool,
    /// Kept for callers that run their own beat analysis; the engine's beat test reads
    /// `beat_sensitivity` only.
    pub hard_cut_sensitivity: u32,
    pub soft_cut_duration_ms: u64,
    pub preset_duration_ms: u64,
    pub mesh_x: usize,
    pub mesh_y: usize,
    pub fps: u32,
    pub aspect_correction: bool,
    /// Spread of the random change to each preset's display time.
    pub duration_variance: u32,
    pub preset_locked: bool,
    pub window_width: usize,
    pub window_height: usize,
}

pub open spec fn default_config() -> EngineConfig {
    EngineConfig {
        beat_sensitivity: 16384,
        hard_cut_duration_ms: 20000,
        hard_cut_enabled: false,
        hard_cut_sensitivity: 200,
        soft_cut_duration_ms: 3000,
        preset_duration_ms: 30000,
        mesh_x: 48,
        mesh_y: 32,
        fps: 60,
        aspect_correction: true,
        duration_variance: 0,
        preset_locked: false,
        window_width: 800,
        window_height: 600,
    }
}

impl EngineConfig {
    pub fn new() -> (r: EngineConfig)
        ensures
            r == default_config(),
    {
        EngineConfig {
            beat_sensitivity: 16384,
            hard_cut_duration_ms: 20000,
            hard_cut_enabled: false,
            hard_cut_sensitivity: 200,
            soft_cut_duration_ms: 3000,
            preset_duration_ms: 30000,
            mesh_x: 48,
            mesh_y: 32,
            fps: 60,
            aspect_correction: true,
            duration_variance: 0,
            preset_locked: false,
            window_width: 800,
            window_height: 600,
        }
    }
}

impl Default for EngineConfig {
    fn default() -> (r: EngineConfig)
        ensures
            r == default_config(),
    {
        EngineConfig::new()
    }
}

/// Display time of a newly active preset: `preset_ms * (1 + sigma * g)` floored at zero,
/// with sigma given in hundredths and the normal draw `g` in thousandths, capped to `u64`.
pub open spec fn requested_duration(preset_ms: u64, variance: u32, gaussian_milli: i32) -> u64 {
    let f = 100000 + variance * gaussian_milli;
    if f <= 0 {
        0
    } else if preset_ms * f / 100000 > u64::MAX {
        u64::MAX
    } else {
        (preset_ms * f / 100000) as u64
    }
}

pub fn compute_requested_duration(preset_ms: u64, variance: u32, gaussian_milli: i32) -> (r: u64)
    ensures
        r == requested_duration(preset_ms, variance, gaussian_milli),
{
    let v = variance as i128;
    let g = gaussian_milli as i128;
    assert(-0x8000_0000_0000_0000 <= v * g <= 0x8000_0000_0000_0000) by (nonlinear_arith)
        requires
            0 <= v < 0x1_0000_0000,
            -0x8000_0000 <= g < 0x8000_0000,
    ;
    let f: i128 = 100000 + v * g;
    if f <= 0 {
        return 0;
    }
    let fu = f as u128;
    let p = preset_ms as u128;
    assert(p * fu < 0x1_0000_0000_0000_0000 * 0x1_0000_0000_0000_0000) by (nonlinear_arith)
        requires
            0 <= p < 0x1_0000_0000_0000_0000,
            0 < fu < 0x1_0000_0000_0000_0000,
    ;
    let q: u128 = p * fu / 100000;
    if q > u64::MAX as u128 {
        u64::MAX
    } else {
        q as u64
    }
}

} // verus!
