//! Display and audio bring-up checks: pixel packing and frame filling for a
//! framebuffer, the tone schedule and write checks of a PCM siren, and the
//! aggregation of both subsystems' outcomes.

pub mod color;
pub mod frame;
pub mod runner;
pub mod siren;

pub use color::{rgb565_to_rgb888, rgb888_to_rgb565, xrgb8888_to_rgb888, Color};
pub use frame::{
    display_colors, fill_with_pattern, finish_display, frame_set_color, ConsoleMode,
    DisplayError, FramebufferGeometry,
};
pub use runner::{aggregate, task_failure, AggregateError, Subsystem, SubsystemFailure, TaskOutcome};
pub use siren::{
    check_write, needs_start, playback_plan, tone_pitches, writes_per_tone, AudioError, HwParam,
    PcmState, PlaybackStep,
};
