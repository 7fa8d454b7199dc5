//! An audio-reactive visualization engine: it keeps the most recent PCM audio,
//! switches between compiled presets by hard cuts and blended soft cuts, driven by
//! explicit requests, a per-preset duration timer and audio energy, and keeps a set
//! of touch-placed waveforms. Compiling presets, drawing and reading the clock are the
//! caller's part: it hands the engine their results.

pub mod audio;
pub mod clock;
pub mod config;
pub mod engine;
pub mod touch;
pub mod transition;

pub use audio::{AudioBuffer, MAX_SAMPLES, MONO, STEREO, ProjectMChannels};
pub use clock::FrameClock;
pub use config::EngineConfig;
pub use engine::{ProjectM, ProjectMHandle};
pub use touch::{
    ProjectMTouchType,
    TouchOverlay,
    TouchPoint,
    TouchType,
    TOUCH_TYPE_BLOB2,
    TOUCH_TYPE_BLOB3,
    TOUCH_TYPE_BLOB5,
    TOUCH_TYPE_CIRCLE,
    TOUCH_TYPE_DERIVATIVE_LINE,
    TOUCH_TYPE_DOUBLE_LINE,
    TOUCH_TYPE_LINE,
    TOUCH_TYPE_RADIAL_BLOB,
    TOUCH_TYPE_RANDOM,
};
pub use transition::{
    CompiledPreset,
    DurationTimer,
    EngineEvent,
    PresetSlot,
    TransitionController,
    TransitionState,
};
